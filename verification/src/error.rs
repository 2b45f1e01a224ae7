//! The failure vocabulary shared by both sensor engines.

use vstd::prelude::*;
use vstd::string::*;

verus! {

/// `std::io::Error`, carried through as an opaque value.
#[verifier::external_type_specification]
#[verifier::external_body]
pub struct ExIoError(std::io::Error);

/// `rppal::gpio::Error`, carried through as an opaque value.
#[verifier::external_type_specification]
#[verifier::external_body]
pub struct ExGpioError(rppal::gpio::Error);

/// Everything that can go wrong while talking to a sensor.
#[derive(Debug)]
pub enum SensorError {
    /// Underlying line-acquisition or transport failure.
    IoError(std::io::Error),
    /// Line-specific hardware or driver failure.
    GpioError(rppal::gpio::Error),
    /// A named wait phase exceeded its deadline; the message names the phase.
    Timeout(String),
    /// Checksum or structural mismatch in received data.
    DataValidation(String),
    /// Setup of the lines failed before monitoring began.
    InitError(String),
    /// Any other failure, such as a worker that could not be joined or a
    /// clock that could not be read.
    SensorError(String),
}

/// A `SensorError` as contracts see it: the same variants, each message as
/// the sequence of its characters.
pub enum ErrorView {
    IoError(std::io::Error),
    GpioError(rppal::gpio::Error),
    Timeout(Seq<char>),
    DataValidation(Seq<char>),
    InitError(Seq<char>),
    SensorError(Seq<char>),
}

impl View for SensorError {
    type V = ErrorView;

    open spec fn view(&self) -> ErrorView {
        match self {
            SensorError::IoError(err) => ErrorView::IoError(*err),
            SensorError::GpioError(err) => ErrorView::GpioError(*err),
            SensorError::Timeout(msg) => ErrorView::Timeout(msg@),
            SensorError::DataValidation(msg) => ErrorView::DataValidation(msg@),
            SensorError::InitError(msg) => ErrorView::InitError(msg@),
            SensorError::SensorError(msg) => ErrorView::SensorError(msg@),
        }
    }
}

/// `text` is what the `Display` impl of `value` writes.
pub open spec fn displays_as<T: std::fmt::Display>(value: &T, text: Seq<char>) -> bool {
    exists|s: String| #[trigger] to_string_from_display_ensures::<T>(value, s) && s@ == text
}

impl ErrorView {
    /// The words that name the kind of the error at the start of its rendering.
    pub open spec fn prefix(self) -> Seq<char> {
        match self {
            ErrorView::IoError(_) => "IO error: "@,
            ErrorView::GpioError(_) => "GPIO error: "@,
            ErrorView::Timeout(_) => "Timeout error: "@,
            ErrorView::DataValidation(_) => "Data validation error: "@,
            ErrorView::InitError(_) => "Initialization error: "@,
            ErrorView::SensorError(_) => "Sensor error: "@,
        }
    }

    /// `detail` is what follows the prefix: the message itself, or, for an
    /// error that wraps a cause, what the cause displays as.
    pub open spec fn has_detail(self, detail: Seq<char>) -> bool {
        match self {
            ErrorView::IoError(err) => displays_as(&err, detail),
            ErrorView::GpioError(err) => displays_as(&err, detail),
            ErrorView::Timeout(msg) => detail == msg,
            ErrorView::DataValidation(msg) => detail == msg,
            ErrorView::InitError(msg) => detail == msg,
            ErrorView::SensorError(msg) => detail == msg,
        }
    }

    /// `text` is the human-readable rendering of this error.
    pub open spec fn renders_as(self, text: Seq<char>) -> bool {
        exists|detail: Seq<char>| #[trigger] self.has_detail(detail) && text == self.prefix() + detail
    }
}

impl SensorError {
    /// The words that name the kind of the error.
    pub fn prefix(&self) -> (label: &'static str)
        ensures
            label@ == self@.prefix(),
    {
        match self {
            SensorError::IoError(_) => "IO error: ",
            SensorError::GpioError(_) => "GPIO error: ",
            SensorError::Timeout(_) => "Timeout error: ",
            SensorError::DataValidation(_) => "Data validation error: ",
            SensorError::InitError(_) => "Initialization error: ",
            SensorError::SensorError(_) => "Sensor error: ",
        }
    }

    /// The message of the error, or what its cause displays as.
    pub fn detail(&self) -> (detail: String)
        ensures
            self@.has_detail(detail@),
    {
        match self {
            SensorError::IoError(err) => err.to_string(),
            SensorError::GpioError(err) => err.to_string(),
            SensorError::Timeout(msg) => msg.clone(),
            SensorError::DataValidation(msg) => msg.clone(),
            SensorError::InitError(msg) => msg.clone(),
            SensorError::SensorError(msg) => msg.clone(),
        }
    }

    /// The human-readable rendering of the error: its prefix, then its detail.
    pub fn message(&self) -> (text: String)
        ensures
            self@.renders_as(text@),
    {
        let detail = self.detail();
        String::from_str(self.prefix()).concat(detail.as_str())
    }
}

impl From<std::io::Error> for SensorError {
    fn from(err: std::io::Error) -> (out: SensorError) {
        SensorError::IoError(err)
    }
}

impl vstd::std_specs::convert::FromSpecImpl<std::io::Error> for SensorError {
    open spec fn obeys_from_spec() -> bool {
        true
    }

    open spec fn from_spec(err: std::io::Error) -> SensorError {
        SensorError::IoError(err)
    }
}

impl From<rppal::gpio::Error> for SensorError {
    fn from(err: rppal::gpio::Error) -> (out: SensorError) {
        SensorError::GpioError(err)
    }
}

impl vstd::std_specs::convert::FromSpecImpl<rppal::gpio::Error> for SensorError {
    open spec fn obeys_from_spec() -> bool {
        true
    }

    open spec fn from_spec(err: rppal::gpio::Error) -> SensorError {
        SensorError::GpioError(err)
    }
}

impl From<String> for SensorError {
    fn from(msg: String) -> (out: SensorError) {
        SensorError::SensorError(msg)
    }
}

impl vstd::std_specs::convert::FromSpecImpl<String> for SensorError {
    open spec fn obeys_from_spec() -> bool {
        true
    }

    open spec fn from_spec(msg: String) -> SensorError {
        SensorError::SensorError(msg)
    }
}

impl<'a> From<&'a str> for SensorError {
    fn from(msg: &'a str) -> (out: SensorError)
        ensures
            out@ == ErrorView::SensorError(msg@),
    {
        SensorError::SensorError(String::from_str(msg))
    }
}

impl<'a> vstd::std_specs::convert::FromSpecImpl<&'a str> for SensorError {
    open spec fn obeys_from_spec() -> bool {
        false
    }

    open spec fn from_spec(msg: &'a str) -> SensorError {
        arbitrary()
    }
}

} // verus!
