use vstd::prelude::*;

verus! {

/// `std::str::Utf8Error`, carried by [`Error::StringConversionError`].
#[verifier::external_type_specification]
#[verifier::external_body]
pub struct ExUtf8Error(std::str::Utf8Error);

/// `std::io::Error`, carried by [`Error::IoError`].
#[verifier::external_type_specification]
#[verifier::external_body]
pub struct ExIoError(std::io::Error);

/// Everything that can go wrong when talking to CUPS.
#[derive(Debug)]
pub enum Error {
    DestinationListFailed,
    DestinationNotFound(String),
    StringConversionError(std::str::Utf8Error),
    NullPointer,
    ServerError(String),
    InvalidName(String),
    EnumerationError(String),
    DetailedInfoUnavailable,
    UnsupportedFeature(String),
    MediaSizeError(String),
    JobCreationFailed(String),
    DocumentSubmissionFailed(String),
    JobManagementFailed(String),
    IoError(std::io::Error),
    ServerUnavailable,
    AuthenticationRequired(String),
    AuthenticationFailed(String),
    ConnectionFailed(String),
    PermissionDenied(String),
    PrinterOffline(String),
    PrinterNotAccepting(String, String),
    InvalidFormat(String, String),
    DocumentTooLarge(usize, usize),
    NetworkError(String),
    ConfigurationError(String),
    Timeout,
}

pub type Result<T> = std::result::Result<T, Error>;

/// Broad classes of errors, used to decide how to react to one.
#[derive(Debug, Clone, Copy, PartialEq, Eq, Structural)]
pub enum ErrorCategory {
    Network,
    Authentication,
    Printer,
    Document,
    Job,
    Configuration,
    General,
}

impl Error {
    /// Errors that may go away by themselves: the server or network is down,
    /// an operation timed out, or the printer is offline.
    pub open spec fn spec_is_recoverable(&self) -> bool {
        match self {
            Error::ServerUnavailable | Error::NetworkError(_) | Error::Timeout
            | Error::PrinterOffline(_) => true,
            _ => false,
        }
    }

    pub open spec fn spec_error_category(&self) -> ErrorCategory {
        match self {
            Error::ServerUnavailable | Error::NetworkError(_) | Error::Timeout => {
                ErrorCategory::Network
            },
            Error::AuthenticationRequired(_) | Error::PermissionDenied(_) => {
                ErrorCategory::Authentication
            },
            Error::PrinterOffline(_) | Error::PrinterNotAccepting(_, _) => ErrorCategory::Printer,
            Error::InvalidFormat(_, _) | Error::DocumentTooLarge(_, _) => ErrorCategory::Document,
            Error::JobCreationFailed(_) | Error::JobManagementFailed(_) => ErrorCategory::Job,
            Error::ConfigurationError(_) => ErrorCategory::Configuration,
            _ => ErrorCategory::General,
        }
    }

    pub open spec fn spec_suggested_action(&self) -> Seq<char> {
        match self {
            Error::ServerUnavailable => "Check if CUPS service is running: sudo systemctl status cups"@,
            Error::AuthenticationRequired(_) => "Provide valid credentials for the printer"@,
            Error::PrinterOffline(_) => "Check printer connection and power status"@,
            Error::PrinterNotAccepting(_, _) => "Enable job acceptance: cupsaccept <printer>"@,
            Error::InvalidFormat(_, _) => "Convert document to a supported format (PDF, PostScript, text)"@,
            Error::DocumentTooLarge(_, _) => "Reduce document size or split into smaller files"@,
            Error::NetworkError(_) => "Check network connectivity to CUPS server"@,
            Error::Timeout => "Retry the operation or increase timeout value"@,
            Error::ConfigurationError(_) => "Check CUPS configuration files"@,
            _ => "Check CUPS logs for more details: sudo tail /var/log/cups/error_log"@,
        }
    }

    /// Whether retrying the failed operation later may succeed.
    pub fn is_recoverable(&self) -> (r: bool)
        ensures
            r == self.spec_is_recoverable(),
    {
        match self {
            Error::ServerUnavailable | Error::NetworkError(_) | Error::Timeout
            | Error::PrinterOffline(_) => true,
            Error::AuthenticationRequired(_) | Error::PermissionDenied(_)
            | Error::PrinterNotAccepting(_, _) => false,
            Error::DocumentTooLarge(_, _) | Error::InvalidFormat(_, _)
            | Error::ConfigurationError(_) => false,
            _ => false,
        }
    }

    /// The broad class this error falls into.
    pub fn error_category(&self) -> (c: ErrorCategory)
        ensures
            c == self.spec_error_category(),
    {
        match self {
            Error::ServerUnavailable | Error::NetworkError(_) | Error::Timeout => {
                ErrorCategory::Network
            },
            Error::AuthenticationRequired(_) | Error::PermissionDenied(_) => {
                ErrorCategory::Authentication
            },
            Error::PrinterOffline(_) | Error::PrinterNotAccepting(_, _) => ErrorCategory::Printer,
            Error::InvalidFormat(_, _) | Error::DocumentTooLarge(_, _) => ErrorCategory::Document,
            Error::JobCreationFailed(_) | Error::JobManagementFailed(_) => ErrorCategory::Job,
            Error::ConfigurationError(_) => ErrorCategory::Configuration,
            _ => ErrorCategory::General,
        }
    }

    /// A hint for the user on how to fix the problem.
    pub fn suggested_action(&self) -> (r: &'static str)
        ensures
            r@ == self.spec_suggested_action(),
    {
        match self {
            Error::ServerUnavailable => "Check if CUPS service is running: sudo systemctl status cups",
            Error::AuthenticationRequired(_) => "Provide valid credentials for the printer",
            Error::PrinterOffline(_) => "Check printer connection and power status",
            Error::PrinterNotAccepting(_, _) => "Enable job acceptance: cupsaccept <printer>",
            Error::InvalidFormat(_, _) => {
                "Convert document to a supported format (PDF, PostScript, text)"
            },
            Error::DocumentTooLarge(_, _) => "Reduce document size or split into smaller files",
            Error::NetworkError(_) => "Check network connectivity to CUPS server",
            Error::Timeout => "Retry the operation or increase timeout value",
            Error::ConfigurationError(_) => "Check CUPS configuration files",
            _ => "Check CUPS logs for more details: sudo tail /var/log/cups/error_log",
        }
    }
}

/// Every recoverable error is a network problem or an offline printer: no
/// authentication, document, job or configuration error goes away by retrying.
pub proof fn lemma_recoverable_errors_are_transient(e: Error)
    ensures
        e.spec_is_recoverable() ==> (e.spec_error_category() == ErrorCategory::Network
            || e.spec_error_category() == ErrorCategory::Printer),
        e.spec_error_category() == ErrorCategory::Authentication ==> !e.spec_is_recoverable(),
        e.spec_error_category() == ErrorCategory::Document ==> !e.spec_is_recoverable(),
        e.spec_error_category() == ErrorCategory::Job ==> !e.spec_is_recoverable(),
        e.spec_error_category() == ErrorCategory::Configuration ==> !e.spec_is_recoverable(),
{
}

/// Retrying can help exactly for a server that is unavailable, a network
/// error, a timeout or an offline printer; every other error, a missing
/// destination among them, is not recoverable.
pub proof fn lemma_recoverable_iff_transient_variant(e: Error)
    ensures
        e.spec_is_recoverable() <==> (e is ServerUnavailable || e is NetworkError || e is Timeout
            || e is PrinterOffline),
        e is DestinationNotFound ==> !e.spec_is_recoverable(),
{
}

/// Each category holds exactly its listed variants: Network the unavailable
/// server, network errors and timeouts; Authentication a missing credential
/// and a refused permission; Printer an offline or refusing printer; Document
/// a bad format or an oversized document; Job a failed creation or management
/// request; Configuration a configuration error. Every other error is General.
pub proof fn lemma_error_category_members(e: Error)
    ensures
        (e.spec_error_category() == ErrorCategory::Network) <==> (e is ServerUnavailable
            || e is NetworkError || e is Timeout),
        (e.spec_error_category() == ErrorCategory::Authentication) <==> (e is AuthenticationRequired
            || e is PermissionDenied),
        (e.spec_error_category() == ErrorCategory::Printer) <==> (e is PrinterOffline
            || e is PrinterNotAccepting),
        (e.spec_error_category() == ErrorCategory::Document) <==> (e is InvalidFormat
            || e is DocumentTooLarge),
        (e.spec_error_category() == ErrorCategory::Job) <==> (e is JobCreationFailed
            || e is JobManagementFailed),
        (e.spec_error_category() == ErrorCategory::Configuration) <==> (e is ConfigurationError),
        (e.spec_error_category() == ErrorCategory::General) <==> !(e is ServerUnavailable
            || e is NetworkError || e is Timeout || e is AuthenticationRequired
            || e is PermissionDenied || e is PrinterOffline || e is PrinterNotAccepting
            || e is InvalidFormat || e is DocumentTooLarge || e is JobCreationFailed
            || e is JobManagementFailed || e is ConfigurationError),
{
}

/// Only the server, credential, printer, document, network, timeout and
/// configuration errors listed with a hint of their own get one; every other
/// error gets the hint to read the CUPS error log.
pub proof fn lemma_generic_hint(e: Error)
    ensures
        (e.spec_suggested_action() == "Check CUPS logs for more details: sudo tail /var/log/cups/error_log"@)
            <==> !(e is ServerUnavailable || e is AuthenticationRequired || e is PrinterOffline
            || e is PrinterNotAccepting || e is InvalidFormat || e is DocumentTooLarge
            || e is NetworkError || e is Timeout || e is ConfigurationError),
{
    reveal_strlit("Check CUPS logs for more details: sudo tail /var/log/cups/error_log");
    reveal_strlit("Check if CUPS service is running: sudo systemctl status cups");
    reveal_strlit("Provide valid credentials for the printer");
    reveal_strlit("Check printer connection and power status");
    reveal_strlit("Enable job acceptance: cupsaccept <printer>");
    reveal_strlit("Convert document to a supported format (PDF, PostScript, text)");
    reveal_strlit("Reduce document size or split into smaller files");
    reveal_strlit("Check network connectivity to CUPS server");
    reveal_strlit("Retry the operation or increase timeout value");
    reveal_strlit("Check CUPS configuration files");
    assert("Check CUPS logs for more details: sudo tail /var/log/cups/error_log"@[6] != "Check if CUPS service is running: sudo systemctl status cups"@[6]);
    assert("Check CUPS logs for more details: sudo tail /var/log/cups/error_log"@[0] != "Provide valid credentials for the printer"@[0]);
    assert("Check CUPS logs for more details: sudo tail /var/log/cups/error_log"@[6] != "Check printer connection and power status"@[6]);
    assert("Check CUPS logs for more details: sudo tail /var/log/cups/error_log"@[0] != "Enable job acceptance: cupsaccept <printer>"@[0]);
    assert("Check CUPS logs for more details: sudo tail /var/log/cups/error_log"@[1] != "Convert document to a supported format (PDF, PostScript, text)"@[1]);
    assert("Check CUPS logs for more details: sudo tail /var/log/cups/error_log"@[0] != "Reduce document size or split into smaller files"@[0]);
    assert("Check CUPS logs for more details: sudo tail /var/log/cups/error_log"@[6] != "Check network connectivity to CUPS server"@[6]);
    assert("Check CUPS logs for more details: sudo tail /var/log/cups/error_log"@[0] != "Retry the operation or increase timeout value"@[0]);
    assert("Check CUPS logs for more details: sudo tail /var/log/cups/error_log"@[11] != "Check CUPS configuration files"@[11]);
}

} // verus!
