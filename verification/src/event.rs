//! Anomaly codes that a session attaches to its transactions.

use vstd::prelude::*;

verus! {

/// A protocol anomaly noticed while a message was handled.
#[derive(Clone, Copy, Debug, PartialEq, Eq, Structural)]
pub enum SNMPEvent {
    /// The buffer could not be decoded as a message.
    MalformedData,
    /// Version 3 security parameters of a model other than the user-based one.
    UnknownSecurityModel,
    /// The message's version differs from the one the session settled on.
    VersionMismatch,
}

impl SNMPEvent {
    /// The stable numeric code of the anomaly.
    pub open spec fn spec_code(self) -> u8 {
        match self {
            SNMPEvent::MalformedData => 0,
            SNMPEvent::UnknownSecurityModel => 1,
            SNMPEvent::VersionMismatch => 2,
        }
    }

    /// The stable name of the anomaly.
    pub open spec fn spec_name(self) -> Seq<char> {
        match self {
            SNMPEvent::MalformedData => "malformed_data"@,
            SNMPEvent::UnknownSecurityModel => "unknown_security_model"@,
            SNMPEvent::VersionMismatch => "version_mismatch"@,
        }
    }

    /// The stable numeric code of the anomaly.
    #[verifier::when_used_as_spec(spec_code)]
    pub fn code(self) -> (c: u8)
        ensures
            c == self.spec_code(),
    {
        match self {
            SNMPEvent::MalformedData => 0,
            SNMPEvent::UnknownSecurityModel => 1,
            SNMPEvent::VersionMismatch => 2,
        }
    }

    /// The anomaly with the given code, if there is one.
    pub open spec fn spec_from_code(code: u8) -> Option<SNMPEvent> {
        if code == 0 {
            Some(SNMPEvent::MalformedData)
        } else if code == 1 {
            Some(SNMPEvent::UnknownSecurityModel)
        } else if code == 2 {
            Some(SNMPEvent::VersionMismatch)
        } else {
            None
        }
    }

    /// The anomaly with the given code, if there is one: the inverse of `code`.
    #[verifier::when_used_as_spec(spec_from_code)]
    pub fn from_code(code: u8) -> (r: Option<SNMPEvent>)
        ensures
            r == Self::spec_from_code(code),
            r matches Some(e) ==> e.spec_code() == code,
            r is None ==> forall|e: SNMPEvent| e.spec_code() != code,
    {
        if code == 0 {
            Some(SNMPEvent::MalformedData)
        } else if code == 1 {
            Some(SNMPEvent::UnknownSecurityModel)
        } else if code == 2 {
            Some(SNMPEvent::VersionMismatch)
        } else {
            None
        }
    }

    /// The stable name of the anomaly.
    pub fn name(self) -> (n: &'static str)
        ensures
            n@ == self.spec_name(),
    {
        match self {
            SNMPEvent::MalformedData => "malformed_data",
            SNMPEvent::UnknownSecurityModel => "unknown_security_model",
            SNMPEvent::VersionMismatch => "version_mismatch",
        }
    }

    /// The anomaly with the given name, if there is one.
    pub fn from_name(name: &str) -> (r: Option<SNMPEvent>)
        ensures
            match r {
                Some(e) => e.spec_name() == name@,
                None => forall|e: SNMPEvent| e.spec_name() != name@,
            },
    {
        let wanted = name.to_owned();
        if wanted.eq(&SNMPEvent::MalformedData.name().to_owned()) {
            Some(SNMPEvent::MalformedData)
        } else if wanted.eq(&SNMPEvent::UnknownSecurityModel.name().to_owned()) {
            Some(SNMPEvent::UnknownSecurityModel)
        } else if wanted.eq(&SNMPEvent::VersionMismatch.name().to_owned()) {
            Some(SNMPEvent::VersionMismatch)
        } else {
            None
        }
    }
}

} // verus!
