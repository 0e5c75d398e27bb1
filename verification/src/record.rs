//! Record normalization: turning one dispatcher message event (legacy or
//! extended shape) into one canonical owned row, ready for persistence.

use vstd::prelude::*;

verus! {

/// The older, unstructured message shape: free text only.
pub struct LegacyMsg {
    pub text: String,
}

/// The structured message shape: text plus sequence metadata.
pub struct ExtendedMsg {
    pub text: String,
    pub seq: u64,
    pub facility: u8,
    pub level: u8,
    pub oos: bool,
    pub seq_reset: bool,
}

/// One canonical persisted record. The five optional fields are present
/// exactly when the message came from the extended shape — never a mix.
pub struct Row {
    pub text: String,
    pub src: String,
    pub seq: Option<u64>,
    pub facility: Option<u8>,
    pub level: Option<u8>,
    pub oos: Option<bool>,
    pub seq_reset: Option<bool>,
}

impl Row {
    /// A row of extended origin carries all five optional fields.
    pub open spec fn is_extended(self) -> bool {
        self.seq is Some
    }

    /// Either all five optional fields are present (extended origin) or
    /// all five are absent (legacy origin).
    pub open spec fn wf(self) -> bool {
        if self.is_extended() {
            self.facility is Some && self.level is Some && self.oos is Some
                && self.seq_reset is Some
        } else {
            self.facility is None && self.level is None && self.oos is None
                && self.seq_reset is None
        }
    }

    /// What normalizing a legacy message yields: the text and formatted
    /// source address copied into owned storage, no optional fields.
    pub open spec fn matches_legacy(self, src: Seq<char>, msg: LegacyMsg) -> bool {
        &&& self.text@ == msg.text@
        &&& self.src@ == src
        &&& self.seq is None
        &&& self.facility is None
        &&& self.level is None
        &&& self.oos is None
        &&& self.seq_reset is None
    }

    /// What normalizing an extended message yields: text and source
    /// copied, every optional field populated from the message.
    pub open spec fn matches_extended(self, src: Seq<char>, msg: ExtendedMsg) -> bool {
        &&& self.text@ == msg.text@
        &&& self.src@ == src
        &&& self.seq == Some(msg.seq)
        &&& self.facility == Some(msg.facility)
        &&& self.level == Some(msg.level)
        &&& self.oos == Some(msg.oos)
        &&& self.seq_reset == Some(msg.seq_reset)
    }

    /// Normalize a legacy message into an owned record.
    pub fn new_legacy(src: String, msg: &LegacyMsg) -> (r: Row)
        ensures
            r.matches_legacy(src@, *msg),
            r.wf(),
            !r.is_extended(),
    {
        Row {
            text: msg.text.clone(),
            src,
            seq: None,
            facility: None,
            level: None,
            oos: None,
            seq_reset: None,
        }
    }

    /// Normalize an extended message into an owned record.
    pub fn new_extended(src: String, msg: &ExtendedMsg) -> (r: Row)
        ensures
            r.matches_extended(src@, *msg),
            r.wf(),
            r.is_extended(),
    {
        Row {
            text: msg.text.clone(),
            src,
            seq: Some(msg.seq),
            facility: Some(msg.facility),
            level: Some(msg.level),
            oos: Some(msg.oos),
            seq_reset: Some(msg.seq_reset),
        }
    }

    /// Normalize whichever message shape is present, preferring the
    /// legacy buffer when both are handed in. Calling with neither shape
    /// present is a dispatcher contract violation, excluded here; the
    /// unverified shell must check and abort before calling.
    pub fn from_message(src: String, legacy: Option<&LegacyMsg>, extended: Option<&ExtendedMsg>)
        -> (r: Row)
        requires
            legacy is Some || extended is Some,
        ensures
            r.wf(),
            match legacy {
                Some(buf) => r.matches_legacy(src@, *buf),
                None => r.matches_extended(src@, *extended.unwrap()),
            },
    {
        match legacy {
            Some(buf) => Row::new_legacy(src, buf),
            None => Row::new_extended(src, extended.unwrap()),
        }
    }
}

} // verus!
