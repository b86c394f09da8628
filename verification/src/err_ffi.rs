//! Operating-system error codes surfaced by the native multimedia
//! library.

use vstd::prelude::*;

verus! {

/// An operating-system error surfaced through the native multimedia
/// library, tagged by its errno value.
#[derive(Clone, Copy, Debug, PartialEq, Eq, Structural)]
pub enum AvFfiError {
    OperationNotPermitted,
    NoSuchFileOrDirectory,
    NoSuchProcess,
    InterruptedSystemCall,
    IoError,
    NoSuchDeviceOrAddress,
    ArgumentListTooLong,
    ExecFormatError,
    BadFileNumber,
    NoChildProcesses,
    TryAgain,
    OutOfMemory,
    PermissionDenied,
    BadAddress,
    BlockDeviceRequired,
    DeviceOrResourceBusy,
    FileExists,
    CrossDeviceLink,
    NoSuchDevice,
    NotDirectory,
    Directory,
    InvalidArgument,
    FileTableOverflow,
    TooManyOpenFiles,
    NotATypewriter,
    TextFileBusy,
    FileTooLarge,
    NoSpaceLeftOnDevice,
    IllegalSeek,
    ReadOnlyFileSystem,
    TooManyLinks,
    BrokenPipe,
    MathArgumentOutOfDomain,
    MathResultNotRepresentable,
    ResourceDeadlock,
    FileNameTooLong,
    NoRecordLocksAvailable,
    InvalidSystemCall,
    DirectoryNotEmpty,
    TooManySymbolicLinks,
    NoMessageOfDesiredType,
    IdentifierRemoved,
    ChannelNumberOutOfRange,
    Level2NotSynchronized,
    Level3Halted,
    Level3Reset,
    LinkNumberOutOfRange,
    ProtocolDriverNotAttached,
    NoCsiStructureAvailable,
    Level2Halted,
    InvalidExchange,
    InvalidRequestDescriptor,
    ExchangeFull,
    NoAnode,
    InvalidRequestCode,
    InvalidSlot,
    BadFontFileFormat,
    DeviceNotAStream,
    NoDataAvailable,
    TimerExpired,
    OutOfStreamsResources,
    MachineNotOnNetwork,
    PackageNotInstalled,
    ObjectRemote,
    LinkSevered,
    AdvertiseError,
    SrmountError,
    CommunicationErrorOnSend,
    ProtocolError,
    MultihopAttempted,
    RfsSpecificError,
    NotADataMessage,
    ValueTooLarge,
    NameNotUniqueOnNetwork,
    FileDescriptorInBadState,
    RemoteAddressChanged,
    CanNotAccessSharedLibrary,
    CorruptedSharedLibrary,
    LibSectionCorrupted,
    TooManySharedLibraries,
    CannotExecASharedLibraryDirectly,
    IllegalByteSequence,
    RestartInterruptedSystemCall,
    StreamsPipeError,
    TooManyUsers,
    SocketOperationOnNonSocket,
    DestinationAddressRequired,
    MessageTooLong,
    ProtocolWrongTypeForSocket,
    ProtocolNotAvailable,
    ProtocolNotSupported,
    SocketTypeNotSupported,
    OperationNotSupportedOnTransportEndpoint,
    ProtocolFamilyNotSupported,
    AddressFamilyNotSupportedByProtocol,
    AddressAlreadyInUse,
    CannotAssignRequestedAddress,
    NetworkDown,
    NetworkUnreachable,
    ConnectionReset,
    ConnectionAbort,
    ConnectionResetByPeer,
    NoBufferSpaceAvailable,
    TransportEndpointAlreadyConnected,
    TransportEndpointNotConnected,
    CannotSendAfterTransportEndpointShutdown,
    TooManyReferences,
    ConnectionTimedOut,
    ConnectionRefused,
    HostDown,
    NoRouteToHost,
    OperationAlreadyInProgress,
    OperationNowInProgress,
    StaleFileHandle,
    StructureNeedsCleaning,
    NotXenixNamedTypeFile,
    NoXenixSemaphoresAvailable,
    NamedTypeFile,
    RemoteIoError,
    QuotaExceeded,
    NoMediumFound,
    WrongMediumType,
    OperationCanceled,
    RequiredKeyNotAvailable,
    KeyExpired,
    KeyRevoked,
    KeyRejectedByService,
    OwnerDied,
    StateNotRecoverable,
    OperationNotPossibleDueToRfKill,
    MemoryPageHardwareError,
}

/// The native integer code of each `AvFfiError` variant.
pub open spec fn spec_ffi_code(e: AvFfiError) -> int {
    match e {
        AvFfiError::OperationNotPermitted => 1,
        AvFfiError::NoSuchFileOrDirectory => 2,
        AvFfiError::NoSuchProcess => 3,
        AvFfiError::InterruptedSystemCall => 4,
        AvFfiError::IoError => 5,
        AvFfiError::NoSuchDeviceOrAddress => 6,
        AvFfiError::ArgumentListTooLong => 7,
        AvFfiError::ExecFormatError => 8,
        AvFfiError::BadFileNumber => 9,
        AvFfiError::NoChildProcesses => 10,
        AvFfiError::TryAgain => 11,
        AvFfiError::OutOfMemory => 12,
        AvFfiError::PermissionDenied => 13,
        AvFfiError::BadAddress => 14,
        AvFfiError::BlockDeviceRequired => 15,
        AvFfiError::DeviceOrResourceBusy => 16,
        AvFfiError::FileExists => 17,
        AvFfiError::CrossDeviceLink => 18,
        AvFfiError::NoSuchDevice => 19,
        AvFfiError::NotDirectory => 20,
        AvFfiError::Directory => 21,
        AvFfiError::InvalidArgument => 22,
        AvFfiError::FileTableOverflow => 23,
        AvFfiError::TooManyOpenFiles => 24,
        AvFfiError::NotATypewriter => 25,
        AvFfiError::TextFileBusy => 26,
        AvFfiError::FileTooLarge => 27,
        AvFfiError::NoSpaceLeftOnDevice => 28,
        AvFfiError::IllegalSeek => 29,
        AvFfiError::ReadOnlyFileSystem => 30,
        AvFfiError::TooManyLinks => 31,
        AvFfiError::BrokenPipe => 32,
        AvFfiError::MathArgumentOutOfDomain => 33,
        AvFfiError::MathResultNotRepresentable => 34,
        AvFfiError::ResourceDeadlock => 35,
        AvFfiError::FileNameTooLong => 36,
        AvFfiError::NoRecordLocksAvailable => 37,
        AvFfiError::InvalidSystemCall => 38,
        AvFfiError::DirectoryNotEmpty => 39,
        AvFfiError::TooManySymbolicLinks => 40,
        AvFfiError::NoMessageOfDesiredType => 42,
        AvFfiError::IdentifierRemoved => 43,
        AvFfiError::ChannelNumberOutOfRange => 44,
        AvFfiError::Level2NotSynchronized => 45,
        AvFfiError::Level3Halted => 46,
        AvFfiError::Level3Reset => 47,
        AvFfiError::LinkNumberOutOfRange => 48,
        AvFfiError::ProtocolDriverNotAttached => 49,
        AvFfiError::NoCsiStructureAvailable => 50,
        AvFfiError::Level2Halted => 51,
        AvFfiError::InvalidExchange => 52,
        AvFfiError::InvalidRequestDescriptor => 53,
        AvFfiError::ExchangeFull => 54,
        AvFfiError::NoAnode => 55,
        AvFfiError::InvalidRequestCode => 56,
        AvFfiError::InvalidSlot => 57,
        AvFfiError::BadFontFileFormat => 59,
        AvFfiError::DeviceNotAStream => 60,
        AvFfiError::NoDataAvailable => 61,
        AvFfiError::TimerExpired => 62,
        AvFfiError::OutOfStreamsResources => 63,
        AvFfiError::MachineNotOnNetwork => 64,
        AvFfiError::PackageNotInstalled => 65,
        AvFfiError::ObjectRemote => 66,
        AvFfiError::LinkSevered => 67,
        AvFfiError::AdvertiseError => 68,
        AvFfiError::SrmountError => 69,
        AvFfiError::CommunicationErrorOnSend => 70,
        AvFfiError::ProtocolError => 71,
        AvFfiError::MultihopAttempted => 72,
        AvFfiError::RfsSpecificError => 73,
        AvFfiError::NotADataMessage => 74,
        AvFfiError::ValueTooLarge => 75,
        AvFfiError::NameNotUniqueOnNetwork => 76,
        AvFfiError::FileDescriptorInBadState => 77,
        AvFfiError::RemoteAddressChanged => 78,
        AvFfiError::CanNotAccessSharedLibrary => 79,
        AvFfiError::CorruptedSharedLibrary => 80,
        AvFfiError::LibSectionCorrupted => 81,
        AvFfiError::TooManySharedLibraries => 82,
        AvFfiError::CannotExecASharedLibraryDirectly => 83,
        AvFfiError::IllegalByteSequence => 84,
        AvFfiError::RestartInterruptedSystemCall => 85,
        AvFfiError::StreamsPipeError => 86,
        AvFfiError::TooManyUsers => 87,
        AvFfiError::SocketOperationOnNonSocket => 88,
        AvFfiError::DestinationAddressRequired => 89,
        AvFfiError::MessageTooLong => 90,
        AvFfiError::ProtocolWrongTypeForSocket => 91,
        AvFfiError::ProtocolNotAvailable => 92,
        AvFfiError::ProtocolNotSupported => 93,
        AvFfiError::SocketTypeNotSupported => 94,
        AvFfiError::OperationNotSupportedOnTransportEndpoint => 95,
        AvFfiError::ProtocolFamilyNotSupported => 96,
        AvFfiError::AddressFamilyNotSupportedByProtocol => 97,
        AvFfiError::AddressAlreadyInUse => 98,
        AvFfiError::CannotAssignRequestedAddress => 99,
        AvFfiError::NetworkDown => 100,
        AvFfiError::NetworkUnreachable => 101,
        AvFfiError::ConnectionReset => 102,
        AvFfiError::ConnectionAbort => 103,
        AvFfiError::ConnectionResetByPeer => 104,
        AvFfiError::NoBufferSpaceAvailable => 105,
        AvFfiError::TransportEndpointAlreadyConnected => 106,
        AvFfiError::TransportEndpointNotConnected => 107,
        AvFfiError::CannotSendAfterTransportEndpointShutdown => 108,
        AvFfiError::TooManyReferences => 109,
        AvFfiError::ConnectionTimedOut => 110,
        AvFfiError::ConnectionRefused => 111,
        AvFfiError::HostDown => 112,
        AvFfiError::NoRouteToHost => 113,
        AvFfiError::OperationAlreadyInProgress => 114,
        AvFfiError::OperationNowInProgress => 115,
        AvFfiError::StaleFileHandle => 116,
        AvFfiError::StructureNeedsCleaning => 117,
        AvFfiError::NotXenixNamedTypeFile => 118,
        AvFfiError::NoXenixSemaphoresAvailable => 119,
        AvFfiError::NamedTypeFile => 120,
        AvFfiError::RemoteIoError => 121,
        AvFfiError::QuotaExceeded => 122,
        AvFfiError::NoMediumFound => 123,
        AvFfiError::WrongMediumType => 124,
        AvFfiError::OperationCanceled => 125,
        AvFfiError::RequiredKeyNotAvailable => 126,
        AvFfiError::KeyExpired => 127,
        AvFfiError::KeyRevoked => 128,
        AvFfiError::KeyRejectedByService => 129,
        AvFfiError::OwnerDied => 130,
        AvFfiError::StateNotRecoverable => 131,
        AvFfiError::OperationNotPossibleDueToRfKill => 132,
        AvFfiError::MemoryPageHardwareError => 133,
    }
}

/// Some `AvFfiError` variant carries this code.
pub open spec fn is_ffi_code(v: int) -> bool {
    exists|e: AvFfiError| spec_ffi_code(e) == v
}

impl AvFfiError {
    /// Decodes a native integer code; `None` when no variant carries
    /// it.
    #[verifier::rlimit(100)]
    pub fn from_i32(value: i32) -> (r: Option<AvFfiError>)
        ensures
            r matches Some(e) ==> spec_ffi_code(e) == value as int,
            r is None ==> !is_ffi_code(value as int),
    {
        match value {
            1 => Some(AvFfiError::OperationNotPermitted),
            2 => Some(AvFfiError::NoSuchFileOrDirectory),
            3 => Some(AvFfiError::NoSuchProcess),
            4 => Some(AvFfiError::InterruptedSystemCall),
            5 => Some(AvFfiError::IoError),
            6 => Some(AvFfiError::NoSuchDeviceOrAddress),
            7 => Some(AvFfiError::ArgumentListTooLong),
            8 => Some(AvFfiError::ExecFormatError),
            9 => Some(AvFfiError::BadFileNumber),
            10 => Some(AvFfiError::NoChildProcesses),
            11 => Some(AvFfiError::TryAgain),
            12 => Some(AvFfiError::OutOfMemory),
            13 => Some(AvFfiError::PermissionDenied),
            14 => Some(AvFfiError::BadAddress),
            15 => Some(AvFfiError::BlockDeviceRequired),
            16 => Some(AvFfiError::DeviceOrResourceBusy),
            17 => Some(AvFfiError::FileExists),
            18 => Some(AvFfiError::CrossDeviceLink),
            19 => Some(AvFfiError::NoSuchDevice),
            20 => Some(AvFfiError::NotDirectory),
            21 => Some(AvFfiError::Directory),
            22 => Some(AvFfiError::InvalidArgument),
            23 => Some(AvFfiError::FileTableOverflow),
            24 => Some(AvFfiError::TooManyOpenFiles),
            25 => Some(AvFfiError::NotATypewriter),
            26 => Some(AvFfiError::TextFileBusy),
            27 => Some(AvFfiError::FileTooLarge),
            28 => Some(AvFfiError::NoSpaceLeftOnDevice),
            29 => Some(AvFfiError::IllegalSeek),
            30 => Some(AvFfiError::ReadOnlyFileSystem),
            31 => Some(AvFfiError::TooManyLinks),
            32 => Some(AvFfiError::BrokenPipe),
            33 => Some(AvFfiError::MathArgumentOutOfDomain),
            34 => Some(AvFfiError::MathResultNotRepresentable),
            35 => Some(AvFfiError::ResourceDeadlock),
            36 => Some(AvFfiError::FileNameTooLong),
            37 => Some(AvFfiError::NoRecordLocksAvailable),
            38 => Some(AvFfiError::InvalidSystemCall),
            39 => Some(AvFfiError::DirectoryNotEmpty),
            40 => Some(AvFfiError::TooManySymbolicLinks),
            42 => Some(AvFfiError::NoMessageOfDesiredType),
            43 => Some(AvFfiError::IdentifierRemoved),
            44 => Some(AvFfiError::ChannelNumberOutOfRange),
            45 => Some(AvFfiError::Level2NotSynchronized),
            46 => Some(AvFfiError::Level3Halted),
            47 => Some(AvFfiError::Level3Reset),
            48 => Some(AvFfiError::LinkNumberOutOfRange),
            49 => Some(AvFfiError::ProtocolDriverNotAttached),
            50 => Some(AvFfiError::NoCsiStructureAvailable),
            51 => Some(AvFfiError::Level2Halted),
            52 => Some(AvFfiError::InvalidExchange),
            53 => Some(AvFfiError::InvalidRequestDescriptor),
            54 => Some(AvFfiError::ExchangeFull),
            55 => Some(AvFfiError::NoAnode),
            56 => Some(AvFfiError::InvalidRequestCode),
            57 => Some(AvFfiError::InvalidSlot),
            59 => Some(AvFfiError::BadFontFileFormat),
            60 => Some(AvFfiError::DeviceNotAStream),
            61 => Some(AvFfiError::NoDataAvailable),
            62 => Some(AvFfiError::TimerExpired),
            63 => Some(AvFfiError::OutOfStreamsResources),
            64 => Some(AvFfiError::MachineNotOnNetwork),
            65 => Some(AvFfiError::PackageNotInstalled),
            66 => Some(AvFfiError::ObjectRemote),
            67 => Some(AvFfiError::LinkSevered),
            68 => Some(AvFfiError::AdvertiseError),
            69 => Some(AvFfiError::SrmountError),
            70 => Some(AvFfiError::CommunicationErrorOnSend),
            71 => Some(AvFfiError::ProtocolError),
            72 => Some(AvFfiError::MultihopAttempted),
            73 => Some(AvFfiError::RfsSpecificError),
            74 => Some(AvFfiError::NotADataMessage),
            75 => Some(AvFfiError::ValueTooLarge),
            76 => Some(AvFfiError::NameNotUniqueOnNetwork),
            77 => Some(AvFfiError::FileDescriptorInBadState),
            78 => Some(AvFfiError::RemoteAddressChanged),
            79 => Some(AvFfiError::CanNotAccessSharedLibrary),
            80 => Some(AvFfiError::CorruptedSharedLibrary),
            81 => Some(AvFfiError::LibSectionCorrupted),
            82 => Some(AvFfiError::TooManySharedLibraries),
            83 => Some(AvFfiError::CannotExecASharedLibraryDirectly),
            84 => Some(AvFfiError::IllegalByteSequence),
            85 => Some(AvFfiError::RestartInterruptedSystemCall),
            86 => Some(AvFfiError::StreamsPipeError),
            87 => Some(AvFfiError::TooManyUsers),
            88 => Some(AvFfiError::SocketOperationOnNonSocket),
            89 => Some(AvFfiError::DestinationAddressRequired),
            90 => Some(AvFfiError::MessageTooLong),
            91 => Some(AvFfiError::ProtocolWrongTypeForSocket),
            92 => Some(AvFfiError::ProtocolNotAvailable),
            93 => Some(AvFfiError::ProtocolNotSupported),
            94 => Some(AvFfiError::SocketTypeNotSupported),
            95 => Some(AvFfiError::OperationNotSupportedOnTransportEndpoint),
            96 => Some(AvFfiError::ProtocolFamilyNotSupported),
            97 => Some(AvFfiError::AddressFamilyNotSupportedByProtocol),
            98 => Some(AvFfiError::AddressAlreadyInUse),
            99 => Some(AvFfiError::CannotAssignRequestedAddress),
            100 => Some(AvFfiError::NetworkDown),
            101 => Some(AvFfiError::NetworkUnreachable),
            102 => Some(AvFfiError::ConnectionReset),
            103 => Some(AvFfiError::ConnectionAbort),
            104 => Some(AvFfiError::ConnectionResetByPeer),
            105 => Some(AvFfiError::NoBufferSpaceAvailable),
            106 => Some(AvFfiError::TransportEndpointAlreadyConnected),
            107 => Some(AvFfiError::TransportEndpointNotConnected),
            108 => Some(AvFfiError::CannotSendAfterTransportEndpointShutdown),
            109 => Some(AvFfiError::TooManyReferences),
            110 => Some(AvFfiError::ConnectionTimedOut),
            111 => Some(AvFfiError::ConnectionRefused),
            112 => Some(AvFfiError::HostDown),
            113 => Some(AvFfiError::NoRouteToHost),
            114 => Some(AvFfiError::OperationAlreadyInProgress),
            115 => Some(AvFfiError::OperationNowInProgress),
            116 => Some(AvFfiError::StaleFileHandle),
            117 => Some(AvFfiError::StructureNeedsCleaning),
            118 => Some(AvFfiError::NotXenixNamedTypeFile),
            119 => Some(AvFfiError::NoXenixSemaphoresAvailable),
            120 => Some(AvFfiError::NamedTypeFile),
            121 => Some(AvFfiError::RemoteIoError),
            122 => Some(AvFfiError::QuotaExceeded),
            123 => Some(AvFfiError::NoMediumFound),
            124 => Some(AvFfiError::WrongMediumType),
            125 => Some(AvFfiError::OperationCanceled),
            126 => Some(AvFfiError::RequiredKeyNotAvailable),
            127 => Some(AvFfiError::KeyExpired),
            128 => Some(AvFfiError::KeyRevoked),
            129 => Some(AvFfiError::KeyRejectedByService),
            130 => Some(AvFfiError::OwnerDied),
            131 => Some(AvFfiError::StateNotRecoverable),
            132 => Some(AvFfiError::OperationNotPossibleDueToRfKill),
            133 => Some(AvFfiError::MemoryPageHardwareError),
            _ => None,
        }
    }

    /// A human-readable description of the error.
    pub fn message(&self) -> (r: &'static str) {
        match self {
            AvFfiError::OperationNotPermitted => "Operation not permitted",
            AvFfiError::NoSuchFileOrDirectory => "No such file or directory",
            AvFfiError::NoSuchProcess => "No such process",
            AvFfiError::InterruptedSystemCall => "Interrupted system call",
            AvFfiError::IoError => "I/O error",
            AvFfiError::NoSuchDeviceOrAddress => "No such device or address",
            AvFfiError::ArgumentListTooLong => "Argument list too long",
            AvFfiError::ExecFormatError => "Exec format error",
            AvFfiError::BadFileNumber => "Bad file number",
            AvFfiError::NoChildProcesses => "No child processes",
            AvFfiError::TryAgain => "Try again",
            AvFfiError::OutOfMemory => "Out of memory",
            AvFfiError::PermissionDenied => "Permission denied",
            AvFfiError::BadAddress => "Bad address",
            AvFfiError::BlockDeviceRequired => "Block device required",
            AvFfiError::DeviceOrResourceBusy => "Device or resource busy",
            AvFfiError::FileExists => "File exists",
            AvFfiError::CrossDeviceLink => "Cross-device link",
            AvFfiError::NoSuchDevice => "No such device",
            AvFfiError::NotDirectory => "Not a directory",
            AvFfiError::Directory => "Is a directory",
            AvFfiError::InvalidArgument => "Invalid argument",
            AvFfiError::FileTableOverflow => "File table overflow",
            AvFfiError::TooManyOpenFiles => "Too many open files",
            AvFfiError::NotATypewriter => "Not a typewriter",
            AvFfiError::TextFileBusy => "Text file busy",
            AvFfiError::FileTooLarge => "File too large",
            AvFfiError::NoSpaceLeftOnDevice => "No space left on device",
            AvFfiError::IllegalSeek => "Illegal seek",
            AvFfiError::ReadOnlyFileSystem => "Read-only file system",
            AvFfiError::TooManyLinks => "Too many links",
            AvFfiError::BrokenPipe => "Broken pipe",
            AvFfiError::MathArgumentOutOfDomain => "Math argument out of domain of func",
            AvFfiError::MathResultNotRepresentable => "Math result not representable",
            AvFfiError::ResourceDeadlock => "Resource deadlock would occur",
            AvFfiError::FileNameTooLong => "File name too long",
            AvFfiError::NoRecordLocksAvailable => "No record locks available",
            AvFfiError::InvalidSystemCall => "Invalid system call number",
            AvFfiError::DirectoryNotEmpty => "Directory not empty",
            AvFfiError::TooManySymbolicLinks => "Too many symbolic links encountered",
            AvFfiError::NoMessageOfDesiredType => "No message of desired type",
            AvFfiError::IdentifierRemoved => "Identifier removed",
            AvFfiError::ChannelNumberOutOfRange => "Channel number out of range",
            AvFfiError::Level2NotSynchronized => "Level 2 not synchronized",
            AvFfiError::Level3Halted => "Level 3 halted",
            AvFfiError::Level3Reset => "Level 3 reset",
            AvFfiError::LinkNumberOutOfRange => "Link number out of range",
            AvFfiError::ProtocolDriverNotAttached => "Protocol driver not attached",
            AvFfiError::NoCsiStructureAvailable => "No CSI structure available",
            AvFfiError::Level2Halted => "Level 2 halted",
            AvFfiError::InvalidExchange => "Invalid exchange",
            AvFfiError::InvalidRequestDescriptor => "Invalid request descriptor",
            AvFfiError::ExchangeFull => "Exchange full",
            AvFfiError::NoAnode => "No anode",
            AvFfiError::InvalidRequestCode => "Invalid request code",
            AvFfiError::InvalidSlot => "Invalid slot",
            AvFfiError::BadFontFileFormat => "Bad font file format",
            AvFfiError::DeviceNotAStream => "Device not a stream",
            AvFfiError::NoDataAvailable => "No data available",
            AvFfiError::TimerExpired => "Timer expired",
            AvFfiError::OutOfStreamsResources => "Out of streams resources",
            AvFfiError::MachineNotOnNetwork => "Machine is not on the network",
            AvFfiError::PackageNotInstalled => "Package not installed",
            AvFfiError::ObjectRemote => "Object is remote",
            AvFfiError::LinkSevered => "Link has been severed",
            AvFfiError::AdvertiseError => "Advertise error",
            AvFfiError::SrmountError => "Srmount error",
            AvFfiError::CommunicationErrorOnSend => "Communication error on send",
            AvFfiError::ProtocolError => "Protocol error",
            AvFfiError::MultihopAttempted => "Multihop attempted",
            AvFfiError::RfsSpecificError => "RFS specific error",
            AvFfiError::NotADataMessage => "Not a data message",
            AvFfiError::ValueTooLarge => "Value too large for defined data type",
            AvFfiError::NameNotUniqueOnNetwork => "Name not unique on network",
            AvFfiError::FileDescriptorInBadState => "File descriptor in bad state",
            AvFfiError::RemoteAddressChanged => "Remote address changed",
            AvFfiError::CanNotAccessSharedLibrary => "Can not access a needed shared library",
            AvFfiError::CorruptedSharedLibrary => "Accessing a corrupted shared library",
            AvFfiError::LibSectionCorrupted => ".lib section in a.out corrupted",
            AvFfiError::TooManySharedLibraries => "Attempting to link in too many shared libraries",
            AvFfiError::CannotExecASharedLibraryDirectly => "Cannot exec a shared library directly",
            AvFfiError::IllegalByteSequence => "Illegal byte sequence",
            AvFfiError::RestartInterruptedSystemCall => "Interrupted system call should be restarted",
            AvFfiError::StreamsPipeError => "Streams pipe error",
            AvFfiError::TooManyUsers => "Too many users",
            AvFfiError::SocketOperationOnNonSocket => "Socket operation on non-socket",
            AvFfiError::DestinationAddressRequired => "Destination address required",
            AvFfiError::MessageTooLong => "Message too long",
            AvFfiError::ProtocolWrongTypeForSocket => "Protocol wrong type for socket",
            AvFfiError::ProtocolNotAvailable => "Protocol not available",
            AvFfiError::ProtocolNotSupported => "Protocol not supported",
            AvFfiError::SocketTypeNotSupported => "Socket type not supported",
            AvFfiError::OperationNotSupportedOnTransportEndpoint => "Operation not supported on transport endpoint",
            AvFfiError::ProtocolFamilyNotSupported => "Protocol family not supported",
            AvFfiError::AddressFamilyNotSupportedByProtocol => "Address family not supported by protocol",
            AvFfiError::AddressAlreadyInUse => "Address already in use",
            AvFfiError::CannotAssignRequestedAddress => "Cannot assign requested address",
            AvFfiError::NetworkDown => "Network is down",
            AvFfiError::NetworkUnreachable => "Network is unreachable",
            AvFfiError::ConnectionReset => "Network dropped connection because of reset",
            AvFfiError::ConnectionAbort => "Software caused connection abort",
            AvFfiError::ConnectionResetByPeer => "Connection reset by peer",
            AvFfiError::NoBufferSpaceAvailable => "No buffer space available",
            AvFfiError::TransportEndpointAlreadyConnected => "Transport endpoint is already connected",
            AvFfiError::TransportEndpointNotConnected => "Transport endpoint is not connected",
            AvFfiError::CannotSendAfterTransportEndpointShutdown => "Cannot send after transport endpoint shutdown",
            AvFfiError::TooManyReferences => "Too many references: cannot splice",
            AvFfiError::ConnectionTimedOut => "Connection timed out",
            AvFfiError::ConnectionRefused => "Connection refused",
            AvFfiError::HostDown => "Host is down",
            AvFfiError::NoRouteToHost => "No route to host",
            AvFfiError::OperationAlreadyInProgress => "Operation already in progress",
            AvFfiError::OperationNowInProgress => "Operation now in progress",
            AvFfiError::StaleFileHandle => "Stale file handle",
            AvFfiError::StructureNeedsCleaning => "Structure needs cleaning",
            AvFfiError::NotXenixNamedTypeFile => "Not a XENIX named type file",
            AvFfiError::NoXenixSemaphoresAvailable => "No XENIX semaphores available",
            AvFfiError::NamedTypeFile => "Is a named type file",
            AvFfiError::RemoteIoError => "Remote I/O error",
            AvFfiError::QuotaExceeded => "Quota exceeded",
            AvFfiError::NoMediumFound => "No medium found",
            AvFfiError::WrongMediumType => "Wrong medium type",
            AvFfiError::OperationCanceled => "Operation Canceled",
            AvFfiError::RequiredKeyNotAvailable => "Required key not available",
            AvFfiError::KeyExpired => "Key has expired",
            AvFfiError::KeyRevoked => "Key has been revoked",
            AvFfiError::KeyRejectedByService => "Key was rejected by service",
            AvFfiError::OwnerDied => "Owner died",
            AvFfiError::StateNotRecoverable => "State not recoverable",
            AvFfiError::OperationNotPossibleDueToRfKill => "Operation not possible due to RF-kill",
            AvFfiError::MemoryPageHardwareError => "Memory page has hardware error",
        }
    }
}

} // verus!
