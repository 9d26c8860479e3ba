//! The failures that the launcher reports, each with a fixed message.

use vstd::prelude::*;

verus! {

/// What is known of a failed operating-system call.
#[derive(Debug, Clone, PartialEq, Eq)]
pub struct IoErrorInfo {
    /// The kind of the failure, in words.
    pub kind: String,
    /// The error number of the operating system, where there is one.
    pub raw_os_error: Option<i32>,
    /// The failure as shown to a user.
    pub description: String,
    /// The failure as shown to a developer.
    pub debug_format: String,
}

/// What is known of a failure inside a library that the launcher calls.
#[derive(Debug, Clone, PartialEq, Eq)]
pub struct ErrorInfo {
    /// The failure as shown to a user.
    pub description: String,
    /// The failure as shown to a developer.
    pub debug_format: String,
}

/// The kind of a failure, without its details.
#[derive(Debug, Clone, Copy, PartialEq, Eq, Structural)]
pub enum ErrorKind {
    ConvertPathToStringError,
    FailedToRecreateFolder,
    CreateYARCDirectory,
    CreateLauncherDirectory,
    CreateTempDirectory,
    CreateYARGDirectory,
    CreateSetlistDirectory,
    GetBaseDirs,
    ExtractSetlistPath,
    ExtractFileOpenError,
    ExtractZipError,
    UnhandledReleaseFileType,
    WriteTagFileError,
    InvalidSignatureFile,
    VerifyOpenZipFail,
    VerifyFail,
    DownloadFileCreateFail,
    DownloadInitFail,
    DownloadWriteError,
    DownloadFail,
    FailedToRemoveTagFile,
    FailedToLaunchProfile,
    FailedToRevealFolder,
}

/// A failure of the launcher, with the path or address it concerns and the
/// details of what went wrong underneath.
#[derive(Debug, Clone, PartialEq, Eq)]
pub enum Error {
    ConvertPathToStringError { path: String },
    FailedToRecreateFolder { path: String, error: IoErrorInfo },
    CreateYARCDirectory { path: String, error: IoErrorInfo },
    CreateLauncherDirectory { path: String, error: IoErrorInfo },
    CreateTempDirectory { path: String, error: IoErrorInfo },
    CreateYARGDirectory { path: String, error: IoErrorInfo },
    CreateSetlistDirectory { path: String, error: IoErrorInfo },
    GetBaseDirs,
    ExtractSetlistPath { path: String, error: ErrorInfo },
    ExtractFileOpenError { path: String, error: IoErrorInfo },
    ExtractZipError { path: String, error: ErrorInfo },
    UnhandledReleaseFileType { release_type: String },
    WriteTagFileError { path: String, error: IoErrorInfo },
    InvalidSignatureFile { error: ErrorInfo },
    VerifyOpenZipFail { path: String, error: IoErrorInfo },
    VerifyFail { error: ErrorInfo },
    DownloadFileCreateFail { path: String, error: IoErrorInfo },
    DownloadInitFail { url: String, error: ErrorInfo },
    DownloadWriteError { path: String, url: String, error: IoErrorInfo },
    DownloadFail { error: ErrorInfo },
    FailedToRemoveTagFile { path: String, error: IoErrorInfo },
    FailedToLaunchProfile {
        path: String,
        arguments: Vec<String>,
        use_obs_vkcapture: bool,
        error: IoErrorInfo,
    },
    FailedToRevealFolder { path: String, error: ErrorInfo },
}

/// The message shown for a failure of kind `kind`. Only a failed launch has
/// two: `through_capture` says whether the launch went through the capture
/// tool.
pub open spec fn message_of(kind: ErrorKind, through_capture: bool) -> Seq<char> {
    match kind {
        ErrorKind::ConvertPathToStringError => "Failed to convert path to string!"@,
        ErrorKind::FailedToRecreateFolder => "Failed to re-create folder."@,
        ErrorKind::CreateYARCDirectory => "Failed to create YARC directory."@,
        ErrorKind::CreateLauncherDirectory => "Failed to create launcher directory."@,
        ErrorKind::CreateTempDirectory => "Failed to create launcher directory."@,
        ErrorKind::CreateYARGDirectory => "Failed to create YARG directory."@,
        ErrorKind::CreateSetlistDirectory => "Failed to create setlist directory."@,
        ErrorKind::GetBaseDirs => "Failed to get base directories."@,
        ErrorKind::ExtractSetlistPath => "Failed to extract setlist part."@,
        ErrorKind::ExtractFileOpenError => "Failed to open file while extracting."@,
        ErrorKind::ExtractZipError => "Failed to extract zip."@,
        ErrorKind::UnhandledReleaseFileType => "Unhandled release file type."@,
        ErrorKind::WriteTagFileError => "Failed to write tag file."@,
        ErrorKind::InvalidSignatureFile => "Invalid signature file! Try reinstalling. If it keeps failing, let us know ASAP!"@,
        ErrorKind::VerifyOpenZipFail => "Failed to open zip while verifying."@,
        ErrorKind::VerifyFail => "Failed to verify downloaded zip file! Try reinstalling. If it keeps failing, let us know ASAP!"@,
        ErrorKind::DownloadFileCreateFail => "Failed to create download file."@,
        ErrorKind::DownloadInitFail => "Failed to initialize download."@,
        ErrorKind::DownloadWriteError => "Error while writing to file."@,
        ErrorKind::DownloadFail => "Error while downloading file."@,
        ErrorKind::FailedToRemoveTagFile => "Failed to remove tag file."@,
        ErrorKind::FailedToLaunchProfile => if through_capture {
            "Failed to launch profile! Is the executable installed? Is obs-vkcapture installed and pathed?"@
        } else {
            "Failed to launch profile! Is the executable installed?"@
        },
        ErrorKind::FailedToRevealFolder => "Failed to reveal folder. Is it installed?"@,
    }
}

impl Error {
    /// The kind of this failure.
    pub open spec fn kind_of(self) -> ErrorKind {
        match self {
            Error::ConvertPathToStringError { .. } => ErrorKind::ConvertPathToStringError,
            Error::FailedToRecreateFolder { .. } => ErrorKind::FailedToRecreateFolder,
            Error::CreateYARCDirectory { .. } => ErrorKind::CreateYARCDirectory,
            Error::CreateLauncherDirectory { .. } => ErrorKind::CreateLauncherDirectory,
            Error::CreateTempDirectory { .. } => ErrorKind::CreateTempDirectory,
            Error::CreateYARGDirectory { .. } => ErrorKind::CreateYARGDirectory,
            Error::CreateSetlistDirectory { .. } => ErrorKind::CreateSetlistDirectory,
            Error::GetBaseDirs => ErrorKind::GetBaseDirs,
            Error::ExtractSetlistPath { .. } => ErrorKind::ExtractSetlistPath,
            Error::ExtractFileOpenError { .. } => ErrorKind::ExtractFileOpenError,
            Error::ExtractZipError { .. } => ErrorKind::ExtractZipError,
            Error::UnhandledReleaseFileType { .. } => ErrorKind::UnhandledReleaseFileType,
            Error::WriteTagFileError { .. } => ErrorKind::WriteTagFileError,
            Error::InvalidSignatureFile { .. } => ErrorKind::InvalidSignatureFile,
            Error::VerifyOpenZipFail { .. } => ErrorKind::VerifyOpenZipFail,
            Error::VerifyFail { .. } => ErrorKind::VerifyFail,
            Error::DownloadFileCreateFail { .. } => ErrorKind::DownloadFileCreateFail,
            Error::DownloadInitFail { .. } => ErrorKind::DownloadInitFail,
            Error::DownloadWriteError { .. } => ErrorKind::DownloadWriteError,
            Error::DownloadFail { .. } => ErrorKind::DownloadFail,
            Error::FailedToRemoveTagFile { .. } => ErrorKind::FailedToRemoveTagFile,
            Error::FailedToLaunchProfile { .. } => ErrorKind::FailedToLaunchProfile,
            Error::FailedToRevealFolder { .. } => ErrorKind::FailedToRevealFolder,
        }
    }

    /// Whether this is a launch that went through the capture tool.
    pub open spec fn through_capture(self) -> bool {
        self matches Error::FailedToLaunchProfile { use_obs_vkcapture, .. } && use_obs_vkcapture
    }

    /// The kind of this failure.
    pub fn kind(&self) -> (k: ErrorKind)
        ensures
            k == self.kind_of(),
    {
        match self {
            Error::ConvertPathToStringError { .. } => ErrorKind::ConvertPathToStringError,
            Error::FailedToRecreateFolder { .. } => ErrorKind::FailedToRecreateFolder,
            Error::CreateYARCDirectory { .. } => ErrorKind::CreateYARCDirectory,
            Error::CreateLauncherDirectory { .. } => ErrorKind::CreateLauncherDirectory,
            Error::CreateTempDirectory { .. } => ErrorKind::CreateTempDirectory,
            Error::CreateYARGDirectory { .. } => ErrorKind::CreateYARGDirectory,
            Error::CreateSetlistDirectory { .. } => ErrorKind::CreateSetlistDirectory,
            Error::GetBaseDirs => ErrorKind::GetBaseDirs,
            Error::ExtractSetlistPath { .. } => ErrorKind::ExtractSetlistPath,
            Error::ExtractFileOpenError { .. } => ErrorKind::ExtractFileOpenError,
            Error::ExtractZipError { .. } => ErrorKind::ExtractZipError,
            Error::UnhandledReleaseFileType { .. } => ErrorKind::UnhandledReleaseFileType,
            Error::WriteTagFileError { .. } => ErrorKind::WriteTagFileError,
            Error::InvalidSignatureFile { .. } => ErrorKind::InvalidSignatureFile,
            Error::VerifyOpenZipFail { .. } => ErrorKind::VerifyOpenZipFail,
            Error::VerifyFail { .. } => ErrorKind::VerifyFail,
            Error::DownloadFileCreateFail { .. } => ErrorKind::DownloadFileCreateFail,
            Error::DownloadInitFail { .. } => ErrorKind::DownloadInitFail,
            Error::DownloadWriteError { .. } => ErrorKind::DownloadWriteError,
            Error::DownloadFail { .. } => ErrorKind::DownloadFail,
            Error::FailedToRemoveTagFile { .. } => ErrorKind::FailedToRemoveTagFile,
            Error::FailedToLaunchProfile { .. } => ErrorKind::FailedToLaunchProfile,
            Error::FailedToRevealFolder { .. } => ErrorKind::FailedToRevealFolder,
        }
    }

    /// The message to show for this failure. It depends on the kind alone,
    /// and for a failed launch on whether the capture tool was used.
    pub fn msg(&self) -> (text: String)
        ensures
            text@ == message_of(self.kind_of(), self.through_capture()),
    {
        let text: &str = match self {
            Error::ConvertPathToStringError { .. } => "Failed to convert path to string!",
            Error::FailedToRecreateFolder { .. } => "Failed to re-create folder.",
            Error::CreateYARCDirectory { .. } => "Failed to create YARC directory.",
            Error::CreateLauncherDirectory { .. } => "Failed to create launcher directory.",
            Error::CreateTempDirectory { .. } => "Failed to create launcher directory.",
            Error::CreateYARGDirectory { .. } => "Failed to create YARG directory.",
            Error::CreateSetlistDirectory { .. } => "Failed to create setlist directory.",
            Error::GetBaseDirs => "Failed to get base directories.",
            Error::ExtractSetlistPath { .. } => "Failed to extract setlist part.",
            Error::ExtractFileOpenError { .. } => "Failed to open file while extracting.",
            Error::ExtractZipError { .. } => "Failed to extract zip.",
            Error::UnhandledReleaseFileType { .. } => "Unhandled release file type.",
            Error::WriteTagFileError { .. } => "Failed to write tag file.",
            Error::InvalidSignatureFile { .. } => "Invalid signature file! Try reinstalling. If it keeps failing, let us know ASAP!",
            Error::VerifyOpenZipFail { .. } => "Failed to open zip while verifying.",
            Error::VerifyFail { .. } => "Failed to verify downloaded zip file! Try reinstalling. If it keeps failing, let us know ASAP!",
            Error::DownloadFileCreateFail { .. } => "Failed to create download file.",
            Error::DownloadInitFail { .. } => "Failed to initialize download.",
            Error::DownloadWriteError { .. } => "Error while writing to file.",
            Error::DownloadFail { .. } => "Error while downloading file.",
            Error::FailedToRemoveTagFile { .. } => "Failed to remove tag file.",
            Error::FailedToLaunchProfile { use_obs_vkcapture, .. } => if *use_obs_vkcapture {
                "Failed to launch profile! Is the executable installed? Is obs-vkcapture installed and pathed?"
            } else {
                "Failed to launch profile! Is the executable installed?"
            },
            Error::FailedToRevealFolder { .. } => "Failed to reveal folder. Is it installed?",
        };
        text.to_owned()
    }
}

/// A failure as it is handed to the shell: the failure itself, shown together
/// with its message.
#[derive(Debug, Clone, PartialEq, Eq)]
pub struct CommandError(pub Error);

impl CommandError {
    /// The message to show for the failure inside.
    pub fn message(&self) -> (text: String)
        ensures
            text@ == message_of(self.0.kind_of(), self.0.through_capture()),
    {
        self.0.msg()
    }
}

impl From<Error> for CommandError {
    fn from(value: Error) -> (wrapped: CommandError)
        ensures
            wrapped.0 == value,
    {
        CommandError(value)
    }
}

impl vstd::std_specs::convert::FromSpecImpl<Error> for CommandError {
    open spec fn obeys_from_spec() -> bool {
        true
    }

    open spec fn from_spec(value: Error) -> CommandError {
        CommandError(value)
    }
}

} // verus!
