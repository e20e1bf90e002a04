//! Error definitions for parsing and running test-case fixtures.

use vstd::prelude::*;

verus! {

/// Errors reported while reading, validating, parsing or deploying a
/// test-case fixture.
#[derive(Debug, PartialEq)]
pub enum RunnerError {
    IOError(String),
    ReadingFileFailed(String),
    ParsingXMLFailed(String),
    ValidatingXMLFailed(i32),
    XmlExpectedMandatoryNode(String),
    XmlExpectedMandatoryTextContent(String),
    XmlExpectedMandatoryAttribute(String),
    DeploymentFailed(String),
}

/// Mathematical model of a [`RunnerError`]: each textual payload is seen
/// as its character sequence.
pub enum RunnerErrorV {
    IOError(Seq<char>),
    ReadingFileFailed(Seq<char>),
    ParsingXMLFailed(Seq<char>),
    ValidatingXMLFailed(int),
    XmlExpectedMandatoryNode(Seq<char>),
    XmlExpectedMandatoryTextContent(Seq<char>),
    XmlExpectedMandatoryAttribute(Seq<char>),
    DeploymentFailed(Seq<char>),
}

impl View for RunnerError {
    type V = RunnerErrorV;

    open spec fn view(&self) -> RunnerErrorV {
        match self {
            RunnerError::IOError(s) => RunnerErrorV::IOError(s@),
            RunnerError::ReadingFileFailed(s) => RunnerErrorV::ReadingFileFailed(s@),
            RunnerError::ParsingXMLFailed(s) => RunnerErrorV::ParsingXMLFailed(s@),
            RunnerError::ValidatingXMLFailed(c) => RunnerErrorV::ValidatingXMLFailed(*c as int),
            RunnerError::XmlExpectedMandatoryNode(s) => RunnerErrorV::XmlExpectedMandatoryNode(s@),
            RunnerError::XmlExpectedMandatoryTextContent(s) => RunnerErrorV::XmlExpectedMandatoryTextContent(
                s@,
            ),
            RunnerError::XmlExpectedMandatoryAttribute(s) => RunnerErrorV::XmlExpectedMandatoryAttribute(
                s@,
            ),
            RunnerError::DeploymentFailed(s) => RunnerErrorV::DeploymentFailed(s@),
        }
    }
}

} // verus!
