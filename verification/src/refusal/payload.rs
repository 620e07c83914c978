use vstd::prelude::*;

use super::codes::{RefusalCode, refusal_code_text};
use crate::text::{opt_view, owned};

verus! {

/// One entry of a refusal's `detail` object: a key and its string value.
#[derive(Debug, Clone, PartialEq, Eq)]
pub struct DetailField {
    pub key: String,
    pub value: String,
}

pub open spec fn detail_view(d: Seq<DetailField>) -> Seq<(Seq<char>, Seq<char>)> {
    d.map_values(|f: DetailField| (f.key@, f.value@))
}

#[derive(Debug, Clone, PartialEq, Eq)]
pub struct RefusalPayload {
    pub code: String,
    pub message: String,
    pub detail: Vec<DetailField>,
    pub next_command: Option<String>,
}

/// The refusal document `assess` emits in place of a decision.
#[derive(Debug, Clone, PartialEq, Eq)]
pub struct RefusalEnvelope {
    pub tool: String,
    pub version: String,
    pub decision_band: Option<String>,
    pub refusal: RefusalPayload,
}

pub struct EnvelopeView {
    pub tool: Seq<char>,
    pub version: Seq<char>,
    pub decision_band: Option<Seq<char>>,
    pub code: Seq<char>,
    pub message: Seq<char>,
    pub detail: Seq<(Seq<char>, Seq<char>)>,
    pub next_command: Option<Seq<char>>,
}

impl View for RefusalEnvelope {
    type V = EnvelopeView;

    open spec fn view(&self) -> EnvelopeView {
        EnvelopeView {
            tool: self.tool@,
            version: self.version@,
            decision_band: opt_view(self.decision_band),
            code: self.refusal.code@,
            message: self.refusal.message@,
            detail: detail_view(self.refusal.detail@),
            next_command: opt_view(self.refusal.next_command),
        }
    }
}

/// A fresh refusal envelope: tool `assess`, version `assess.v0`, no
/// decision band, the code's label, the message, empty detail and no next
/// command.
pub open spec fn new_envelope(code: RefusalCode, message: Seq<char>) -> EnvelopeView {
    EnvelopeView {
        tool: "assess"@,
        version: "assess.v0"@,
        decision_band: None,
        code: refusal_code_text(code),
        message,
        detail: Seq::empty(),
        next_command: None,
    }
}

impl RefusalEnvelope {
    pub fn new(code: RefusalCode, message: &str) -> (r: Self)
        ensures
            r@ == new_envelope(code, message@),
    {
        let r = RefusalEnvelope {
            tool: owned("assess"),
            version: owned("assess.v0"),
            decision_band: None,
            refusal: RefusalPayload {
                code: owned(code.as_str()),
                message: owned(message),
                detail: Vec::new(),
                next_command: None,
            },
        };
        assert(detail_view(r.refusal.detail@) =~= Seq::<(Seq<char>, Seq<char>)>::empty());
        r
    }

    /// The same envelope with the given detail entries.
    pub fn with_detail(self, detail: Vec<DetailField>) -> (r: Self)
        ensures
            r@ == (EnvelopeView { detail: detail_view(detail@), ..self@ }),
    {
        RefusalEnvelope {
            refusal: RefusalPayload { detail, ..self.refusal },
            ..self
        }
    }

    /// The same envelope with a suggested next command.
    pub fn with_next_command(self, next_command: String) -> (r: Self)
        ensures
            r@ == (EnvelopeView { next_command: Some(next_command@), ..self@ }),
    {
        RefusalEnvelope {
            refusal: RefusalPayload { next_command: Some(next_command), ..self.refusal },
            ..self
        }
    }
}

} // verus!
