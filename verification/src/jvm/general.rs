//! General JVM TI functionality: the phase of the VM, the version of the
//! interface, verbosity and the format of a location.
use crate::jvm::errors::JvmTIError;
use crate::jvm::events::Handlers;
use crate::jvm::Jvm;
use crate::prelude::{is_status, native_call_result};
use crate::sys;
use vstd::prelude::*;
use vstd::std_specs::convert::FromSpecImpl;

verus! {

/// The phase of VM execution.
#[derive(Debug, Clone, Copy, PartialEq, Eq, Structural)]
pub enum JvmTiPhase {
    /// While in the `Agent_OnLoad` or, for statically linked agents, the `Agent_OnLoad_<agent-lib-name>` function.
    OnLoad,
    /// Between return from the `Agent_OnLoad` or `Agent_OnLoad_<agent-lib-name>` function and the `VMStart` event.
    Primordial,
    /// When the `VMStart` event is sent and until the `VMInit` event is sent.
    Start,
    /// After the `VMInit` event is sent and until the `VMDeath` event returns.
    Live,
    /// After the `VMDeath` event returns or after start-up failure.
    Dead,
}

impl JvmTiPhase {
    /// The native number of this phase.
    pub open spec fn code(self) -> u32 {
        match self {
            JvmTiPhase::OnLoad => sys::JVMTI_PHASE_ONLOAD,
            JvmTiPhase::Primordial => sys::JVMTI_PHASE_PRIMORDIAL,
            JvmTiPhase::Start => sys::JVMTI_PHASE_START,
            JvmTiPhase::Live => sys::JVMTI_PHASE_LIVE,
            JvmTiPhase::Dead => sys::JVMTI_PHASE_DEAD,
        }
    }

    /// Whether `phase` is the native number of a phase.
    pub open spec fn is_phase(phase: u32) -> bool {
        exists|p: JvmTiPhase| #[trigger] p.code() == phase
    }

    /// The phase whose native number is `phase`, if it is the number of one.
    pub fn from_native(phase: u32) -> (decoded: Option<Self>)
        ensures
            match decoded {
                Some(p) => p.code() == phase,
                None => !Self::is_phase(phase),
            },
    {
        match phase {
            sys::JVMTI_PHASE_ONLOAD => Some(JvmTiPhase::OnLoad),
            sys::JVMTI_PHASE_PRIMORDIAL => Some(JvmTiPhase::Primordial),
            sys::JVMTI_PHASE_START => Some(JvmTiPhase::Start),
            sys::JVMTI_PHASE_LIVE => Some(JvmTiPhase::Live),
            sys::JVMTI_PHASE_DEAD => Some(JvmTiPhase::Dead),
            _ => None,
        }
    }
}

/// The version of the JVM Tool Interface (JVM TI).
#[derive(Debug, Clone, Copy, PartialEq, Eq, Structural)]
pub struct JvmTIVersion(u32);

impl View for JvmTIVersion {
    type V = u32;

    /// The version number as the native interface writes it.
    closed spec fn view(&self) -> u32 {
        self.0
    }
}

/// The version number that holds `major`, `minor` and `micro` in their bit
/// fields, under the mark of the JVM TI interface.
pub open spec fn version_number(major: u16, minor: u8, micro: u8) -> u32 {
    sys::JVMTI_VERSION_INTERFACE_JVMTI | ((major as u32) << sys::JVMTI_VERSION_SHIFT_MAJOR) | ((
    minor as u32) << sys::JVMTI_VERSION_SHIFT_MINOR) | ((micro as u32)
        << sys::JVMTI_VERSION_SHIFT_MICRO)
}

impl From<u32> for JvmTIVersion {
    fn from(version_number: u32) -> (version: Self)
        ensures
            version@ == version_number,
    {
        Self(version_number)
    }
}

impl FromSpecImpl<u32> for JvmTIVersion {
    open spec fn obeys_from_spec() -> bool {
        true
    }

    closed spec fn from_spec(version_number: u32) -> Self {
        JvmTIVersion(version_number)
    }
}

impl From<JvmTIVersion> for i32 {
    fn from(version: JvmTIVersion) -> (version_number: i32) {
        version.0 as i32
    }
}

impl FromSpecImpl<JvmTIVersion> for i32 {
    open spec fn obeys_from_spec() -> bool {
        true
    }

    open spec fn from_spec(version: JvmTIVersion) -> i32 {
        version@ as i32
    }
}

impl JvmTIVersion {
    /// Creates a new [`JvmTIVersion`].
    ///
    /// A major number above `0x0FFF` does not fit its field and runs into the
    /// mark of the interface.
    pub fn new(major: u16, minor: u8, micro: u8) -> (version: Self)
        ensures
            version@ == version_number(major, minor, micro),
            major <= 0x0FFF ==> version@ == 0x3000_0000 + major * 0x1_0000 + minor * 0x100 + micro,
    {
        let major = major as u32;
        let minor = minor as u32;
        let micro = micro as u32;
        let version_number = sys::JVMTI_VERSION_INTERFACE_JVMTI | (major
            << sys::JVMTI_VERSION_SHIFT_MAJOR) | (minor << sys::JVMTI_VERSION_SHIFT_MINOR) | (micro
            << sys::JVMTI_VERSION_SHIFT_MICRO);
        assert(major <= 0x0FFF ==> (0x3000_0000u32 | (major << 16u32) | (minor << 8u32) | (micro
            << 0u32)) == 0x3000_0000 + major * 0x1_0000 + minor * 0x100 + micro) by (bit_vector)
            requires
                major <= 0xFFFF,
                minor <= 0xFF,
                micro <= 0xFF,
        ;
        Self(version_number)
    }

    /// JVM TI version 1.0.
    pub fn jvmti_1_0() -> (version: Self)
        ensures
            version@ == 0x3001_0000,
    {
        Self(0x3001_0000)
    }

    /// JVM TI version 1.1.
    pub fn jvmti_1_1() -> (version: Self)
        ensures
            version@ == 0x3001_0100,
    {
        Self(0x3001_0100)
    }

    /// JVM TI version 1.2.
    pub fn jvmti_1_2() -> (version: Self)
        ensures
            version@ == 0x3001_0200,
    {
        Self(0x3001_0200)
    }

    /// JVM TI version 9.
    pub fn jvmti_9() -> (version: Self)
        ensures
            version@ == 0x3009_0000,
    {
        Self(0x3009_0000)
    }

    /// JVM TI version 11.
    pub fn jvmti_11() -> (version: Self)
        ensures
            version@ == 0x300B_0000,
    {
        Self(0x300B_0000)
    }

    /// JVM TI version 19.
    pub fn jvmti_19() -> (version: Self)
        ensures
            version@ == 0x3013_0000,
    {
        Self(0x3013_0000)
    }

    /// JVM TI version 21.
    pub fn jvmti_21() -> (version: Self)
        ensures
            version@ == 0x3015_0000,
    {
        Self(0x3015_0000)
    }

    /// The latest JVM TI version.
    pub fn latest() -> (version: Self)
        ensures
            version@ == 0x3015_0000,
    {
        Self::jvmti_21()
    }

    /// The version number as the native interface writes it.
    pub fn number(&self) -> (version_number: u32)
        ensures
            version_number == self@,
    {
        self.0
    }

    /// The interface type.
    pub fn interface_type(&self) -> (interface_type: u32)
        ensures
            interface_type == self@ & sys::JVMTI_VERSION_MASK_INTERFACE_TYPE,
    {
        self.0 & sys::JVMTI_VERSION_MASK_INTERFACE_TYPE
    }

    /// The major version number.
    pub fn major(&self) -> (major: u16)
        ensures
            major == (self@ & sys::JVMTI_VERSION_MASK_MAJOR) >> sys::JVMTI_VERSION_SHIFT_MAJOR,
    {
        let number = self.0;
        assert((number & 0x0FFF_0000u32) >> 16u32 <= 0x0FFF) by (bit_vector);
        ((self.0 & sys::JVMTI_VERSION_MASK_MAJOR) >> sys::JVMTI_VERSION_SHIFT_MAJOR) as u16
    }

    /// The minor version number.
    pub fn minor(&self) -> (minor: u8)
        ensures
            minor == (self@ & sys::JVMTI_VERSION_MASK_MINOR) >> sys::JVMTI_VERSION_SHIFT_MINOR,
    {
        let number = self.0;
        assert((number & 0x0000_FF00u32) >> 8u32 <= 0xFF) by (bit_vector);
        ((self.0 & sys::JVMTI_VERSION_MASK_MINOR) >> sys::JVMTI_VERSION_SHIFT_MINOR) as u8
    }

    /// The micro version number.
    pub fn micro(&self) -> (micro: u8)
        ensures
            micro == (self@ & sys::JVMTI_VERSION_MASK_MICRO) >> sys::JVMTI_VERSION_SHIFT_MICRO,
    {
        let number = self.0;
        assert((number & 0x0000_00FFu32) >> 0u32 <= 0xFF) by (bit_vector);
        ((self.0 & sys::JVMTI_VERSION_MASK_MICRO) >> sys::JVMTI_VERSION_SHIFT_MICRO) as u8
    }
}

/// A version number gives back the parts that it was made of: the fields of
/// [`version_number`] do not overlap, as long as the major number fits its
/// twelve bits.
pub proof fn lemma_version_parts(major: u16, minor: u8, micro: u8)
    requires
        major <= 0x0FFF,
    ensures
        version_number(major, minor, micro) & sys::JVMTI_VERSION_MASK_INTERFACE_TYPE
            == sys::JVMTI_VERSION_INTERFACE_JVMTI,
        (version_number(major, minor, micro) & sys::JVMTI_VERSION_MASK_MAJOR)
            >> sys::JVMTI_VERSION_SHIFT_MAJOR == major,
        (version_number(major, minor, micro) & sys::JVMTI_VERSION_MASK_MINOR)
            >> sys::JVMTI_VERSION_SHIFT_MINOR == minor,
        (version_number(major, minor, micro) & sys::JVMTI_VERSION_MASK_MICRO)
            >> sys::JVMTI_VERSION_SHIFT_MICRO == micro,
{
    let a = major as u32;
    let b = minor as u32;
    let c = micro as u32;
    assert(a <= 0x0FFF && b <= 0xFF && c <= 0xFF ==> {
        let n = 0x3000_0000u32 | (a << 16u32) | (b << 8u32) | (c << 0u32);
        &&& n & 0x7000_0000u32 == 0x3000_0000u32
        &&& (n & 0x0FFF_0000u32) >> 16u32 == a
        &&& (n & 0x0000_FF00u32) >> 8u32 == b
        &&& (n & 0x0000_00FFu32) >> 0u32 == c
    }) by (bit_vector);
}

/// The verbosity category.
#[derive(Debug, Clone, Copy, PartialEq, Eq, Structural)]
pub enum JvmTIVerboseCategory {
    /// Verbose output other than the other categories.
    Other,
    /// Verbose garbage collection output, like that specified with `-verbose:gc`.
    GarbageCollection,
    /// Verbose class loading output, like that specified with `-verbose:class`.
    Class,
    /// Verbose JNI output, like that specified with `-verbose:jni`.
    Jni,
}

impl JvmTIVerboseCategory {
    /// The native number of this category.
    pub open spec fn code(self) -> u32 {
        match self {
            JvmTIVerboseCategory::Other => sys::JVMTI_VERBOSE_OTHER,
            JvmTIVerboseCategory::GarbageCollection => sys::JVMTI_VERBOSE_GC,
            JvmTIVerboseCategory::Class => sys::JVMTI_VERBOSE_CLASS,
            JvmTIVerboseCategory::Jni => sys::JVMTI_VERBOSE_JNI,
        }
    }
}

/// The location format.
#[derive(Debug, Clone, Copy, PartialEq, Eq, Structural)]
pub enum JvmTiJLocationFormat {
    /// Virtual machine bytecode index.
    JvmBCI,
    /// Native machine program counter.
    MachinePC,
    /// Other.
    Other,
}

impl JvmTiJLocationFormat {
    /// The native number of this format.
    pub open spec fn code(self) -> u32 {
        match self {
            JvmTiJLocationFormat::JvmBCI => sys::JVMTI_JLOCATION_JVMBCI,
            JvmTiJLocationFormat::MachinePC => sys::JVMTI_JLOCATION_MACHINEPC,
            JvmTiJLocationFormat::Other => sys::JVMTI_JLOCATION_OTHER,
        }
    }

    /// Whether `format` is the native number of a location format.
    pub open spec fn is_format(format: u32) -> bool {
        exists|f: JvmTiJLocationFormat| #[trigger] f.code() == format
    }

    /// The format whose native number is `format`, if it is the number of
    /// one.
    pub fn from_native(format: u32) -> (decoded: Option<Self>)
        ensures
            match decoded {
                Some(f) => f.code() == format,
                None => !Self::is_format(format),
            },
    {
        match format {
            sys::JVMTI_JLOCATION_JVMBCI => Some(JvmTiJLocationFormat::JvmBCI),
            sys::JVMTI_JLOCATION_MACHINEPC => Some(JvmTiJLocationFormat::MachinePC),
            sys::JVMTI_JLOCATION_OTHER => Some(JvmTiJLocationFormat::Other),
            _ => None,
        }
    }
}

/// What to hand to the runtime's `SetVerboseFlag`.
#[derive(Debug, Clone, Copy, PartialEq, Eq, Structural)]
pub struct SetVerboseFlag {
    /// The native environment to call.
    pub jvmti_ptr: usize,
    /// The native number of the category.
    pub flag: u32,
    /// One to switch the output on, zero to switch it off.
    pub value: u8,
}

impl<H: Handlers> Jvm<H> {
    /// Takes the answer of `GetPhase`: its status and, on success, the
    /// number of the phase, which must be the number of one. Gives the error
    /// of the status, or the current phase of VM execution.
    pub fn get_phase(&self, status: u32, phase: u32) -> (current: Result<JvmTiPhase, JvmTIError>)
        requires
            is_status(status),
            status == sys::JVMTI_ERROR_NONE ==> JvmTiPhase::is_phase(phase),
        ensures
            status != sys::JVMTI_ERROR_NONE ==> current is Err && current->Err_0.code() == status,
            status == sys::JVMTI_ERROR_NONE ==> current is Ok && current->Ok_0.code() == phase,
    {
        match native_call_result(status) {
            Err(error) => Err(error),
            Ok(()) => match JvmTiPhase::from_native(phase) {
                Some(current) => Ok(current),
                None => unreached(),
            },
        }
    }

    /// Takes the answer of `GetVersionNumber`: its status and, on success,
    /// the version number. Gives the error of the status, or the version of
    /// the JVM TI of the attached JVM.
    pub fn get_version(&self, status: u32, version_number: i32) -> (version: Result<
        JvmTIVersion,
        JvmTIError,
    >)
        requires
            is_status(status),
        ensures
            status != sys::JVMTI_ERROR_NONE ==> version is Err && version->Err_0.code() == status,
            status == sys::JVMTI_ERROR_NONE ==> version is Ok && version->Ok_0@
                == version_number as u32,
    {
        match native_call_result(status) {
            Err(error) => Err(error),
            Ok(()) => Ok(JvmTIVersion::from(version_number as u32)),
        }
    }

    /// Says what to hand to `SetVerboseFlag` to switch the output of
    /// `category` on or off. The status that the runtime answers is for
    /// [`native_call_result`].
    pub fn set_verbose_flag(&self, category: JvmTIVerboseCategory, verbose: bool) -> (request:
        SetVerboseFlag)
        ensures
            request.jvmti_ptr == self.jvmti_ptr(),
            request.flag == category.code(),
            request.value == (if verbose {
                1u8
            } else {
                0u8
            }),
    {
        let flag = match category {
            JvmTIVerboseCategory::Other => sys::JVMTI_VERBOSE_OTHER,
            JvmTIVerboseCategory::GarbageCollection => sys::JVMTI_VERBOSE_GC,
            JvmTIVerboseCategory::Class => sys::JVMTI_VERBOSE_CLASS,
            JvmTIVerboseCategory::Jni => sys::JVMTI_VERBOSE_JNI,
        };
        SetVerboseFlag { jvmti_ptr: self.as_ptr(), flag, value: if verbose {
            1
        } else {
            0
        } }
    }

    /// Takes the answer of `GetJLocationFormat`: its status and, on success,
    /// the number of the format, which must be the number of one. Gives the
    /// error of the status, or the location format.
    pub fn get_jlocation_format(&self, status: u32, format: u32) -> (location_format: Result<
        JvmTiJLocationFormat,
        JvmTIError,
    >)
        requires
            is_status(status),
            status == sys::JVMTI_ERROR_NONE ==> JvmTiJLocationFormat::is_format(format),
        ensures
            status != sys::JVMTI_ERROR_NONE ==> location_format is Err
                && location_format->Err_0.code() == status,
            status == sys::JVMTI_ERROR_NONE ==> location_format is Ok
                && location_format->Ok_0.code() == format,
    {
        match native_call_result(status) {
            Err(error) => Err(error),
            Ok(()) => match JvmTiJLocationFormat::from_native(format) {
                Some(location_format) => Ok(location_format),
                None => unreached(),
            },
        }
    }
}

} // verus!
