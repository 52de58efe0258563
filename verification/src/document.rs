//! Checklist document model: the typed in-memory representation of a
//! checklist and its ordered steps, built from the loosely-typed form in
//! which checklists are stored.
//!
//! The loader collaborator hands the library a [`RawDocument`] whose fields
//! are all optional, exactly as a stored record may or may not carry them.
//! Classification into the closed [`Step`] enumeration is total: a record
//! with a missing or ill-typed required field becomes [`Step::Malformed`]
//! (skipped at run time with a diagnostic), and an integer kind outside the
//! closed set becomes [`Step::Unsupported`] (fatal at run time). Nothing is
//! dropped, so every stored step keeps its position in the run.

use vstd::prelude::*;

verus! {

/// One stored step as the loader found it: every field optional, `None`
/// standing for a field that is absent or not of its required type.
pub struct RawStep {
    /// The integer step kind, when present.
    pub kind: Option<i64>,
    /// Text shown to the operator, for display kinds.
    pub text: Option<String>,
    /// Description of the control action, for action kinds.
    pub description: Option<String>,
    /// Identifier of the control being actuated, for action kinds.
    pub set_id: Option<i64>,
    /// Target position of the control, for action kinds.
    pub to_pos_id: Option<i64>,
}

/// One stored checklist as the loader found it.
pub struct RawDocument {
    /// The spacecraft selector the checklist is filed under.
    pub spacecraft_id: Option<i64>,
    /// The checklist's group heading.
    pub group: Option<String>,
    /// The checklist's name.
    pub name: Option<String>,
    /// The stored steps, in document order.
    pub steps: Vec<RawStep>,
}

/// One checklist step, classified: the closed set of step kinds, plus the
/// two outcomes a loose record can have instead of a kind.
#[derive(Clone)]
pub enum Step {
    /// Kind 0: show `text` and suspend until the operator acknowledges.
    Display { text: String },
    /// Kind 7: show `text` without suspending.
    DisplayOnly { text: String },
    /// Kind 1: move the switch `set_id` to position `to_pos_id`.
    SetSwitch { description: String, set_id: u32, to_pos_id: u32 },
    /// Kind 2: move the circuit breaker `set_id` to position `to_pos_id`.
    SetCircuitBreaker { description: String, set_id: u32, to_pos_id: u32 },
    /// Kind 3: move the selector `set_id` to position `to_pos_id`.
    SetSelector { description: String, set_id: u32, to_pos_id: u32 },
    /// Kind 5: move the handle `set_id` to position `to_pos_id`.
    SetHandle { description: String, set_id: u32, to_pos_id: u32 },
    /// A record whose kind or required payload field is missing or
    /// ill-typed: skipped at run time, with a diagnostic.
    Malformed,
    /// An integer kind outside the closed set: fatal at run time.
    Unsupported { kind: i64 },
}

/// Error for a stored checklist that lacks one of its header fields.
#[derive(Clone, Copy, PartialEq, Eq, Structural, Debug)]
pub enum DocumentError {
    ChecklistMalformed,
}

/// A typed checklist: header fields present, every step classified.
/// Immutable once built; one walkthrough owns it for its whole run.
#[derive(Clone)]
pub struct ChecklistDocument {
    /// The spacecraft selector the checklist is filed under.
    pub spacecraft_id: i64,
    /// The checklist's group heading.
    pub group: String,
    /// The checklist's name.
    pub name: String,
    /// The classified steps, in document order.
    pub steps: Vec<Step>,
}

/// Whether an optional stored integer is present and fits the wire's
/// unsigned 32-bit fields.
pub open spec fn fits_u32(v: Option<i64>) -> bool {
    match v {
        Option::Some(n) => 0 <= n <= u32::MAX,
        Option::None => false,
    }
}

/// Whether a raw step carries everything an action step needs: a
/// description and two in-range integers.
pub open spec fn action_payload_ok(raw: RawStep) -> bool {
    raw.description is Some && fits_u32(raw.set_id) && fits_u32(raw.to_pos_id)
}

/// The classification of one raw step. Total: every raw step is either one
/// of the closed step kinds, `Malformed`, or `Unsupported`.
pub open spec fn classify_spec(raw: RawStep) -> Step {
    match raw.kind {
        Option::None => Step::Malformed,
        Option::Some(k) => if k == 0 || k == 7 {
            match raw.text {
                Option::Some(t) => if k == 0 {
                    Step::Display { text: t }
                } else {
                    Step::DisplayOnly { text: t }
                },
                Option::None => Step::Malformed,
            }
        } else if k == 1 || k == 2 || k == 3 || k == 5 {
            if action_payload_ok(raw) {
                let d = raw.description.unwrap();
                let s = raw.set_id.unwrap() as u32;
                let p = raw.to_pos_id.unwrap() as u32;
                if k == 1 {
                    Step::SetSwitch { description: d, set_id: s, to_pos_id: p }
                } else if k == 2 {
                    Step::SetCircuitBreaker { description: d, set_id: s, to_pos_id: p }
                } else if k == 3 {
                    Step::SetSelector { description: d, set_id: s, to_pos_id: p }
                } else {
                    Step::SetHandle { description: d, set_id: s, to_pos_id: p }
                }
            } else {
                Step::Malformed
            }
        } else {
            Step::Unsupported { kind: k }
        },
    }
}

/// Classifies one raw step, exactly as [`classify_spec`] says.
pub fn classify(raw: &RawStep) -> (s: Step)
    ensures
        s == classify_spec(*raw),
{
    match raw.kind {
        Option::None => Step::Malformed,
        Option::Some(k) => {
            if k == 0 || k == 7 {
                match &raw.text {
                    Option::Some(t) => {
                        let text = t.clone();
                        if k == 0 {
                            Step::Display { text }
                        } else {
                            Step::DisplayOnly { text }
                        }
                    },
                    Option::None => Step::Malformed,
                }
            } else if k == 1 || k == 2 || k == 3 || k == 5 {
                match (&raw.description, raw.set_id, raw.to_pos_id) {
                    (Option::Some(d), Option::Some(s), Option::Some(p)) => {
                        if 0 <= s && s <= u32::MAX as i64 && 0 <= p && p <= u32::MAX as i64 {
                            let description = d.clone();
                            let set_id: u32 = s as u32;
                            let to_pos_id: u32 = p as u32;
                            if k == 1 {
                                Step::SetSwitch { description, set_id, to_pos_id }
                            } else if k == 2 {
                                Step::SetCircuitBreaker { description, set_id, to_pos_id }
                            } else if k == 3 {
                                Step::SetSelector { description, set_id, to_pos_id }
                            } else {
                                Step::SetHandle { description, set_id, to_pos_id }
                            }
                        } else {
                            Step::Malformed
                        }
                    },
                    _ => Step::Malformed,
                }
            } else {
                Step::Unsupported { kind: k }
            }
        },
    }
}

/// Whether a raw checklist carries all three header fields.
pub open spec fn header_ok(raw: RawDocument) -> bool {
    raw.spacecraft_id is Some && raw.group is Some && raw.name is Some
}

impl ChecklistDocument {
    /// Builds the typed document from the loosely-typed stored form.
    ///
    /// Succeeds exactly when the three header fields are present; the steps
    /// are classified one by one, in document order, nothing dropped. The
    /// result is a function of the raw record alone, so loading the same
    /// stored checklist twice yields structurally equal documents.
    pub fn from_raw(raw: RawDocument) -> (r: Result<ChecklistDocument, DocumentError>)
        ensures
            r is Ok <==> header_ok(raw),
            !header_ok(raw) ==> r == Err::<ChecklistDocument, DocumentError>(
                DocumentError::ChecklistMalformed,
            ),
            r matches Ok(d) ==> {
                &&& d.spacecraft_id == raw.spacecraft_id.unwrap()
                &&& d.group == raw.group.unwrap()
                &&& d.name == raw.name.unwrap()
                &&& d.steps@ == raw.steps@.map_values(|s: RawStep| classify_spec(s))
            },
    {
        let RawDocument { spacecraft_id, group, name, steps: raw_steps } = raw;
        let (spacecraft_id, group, name) = match (spacecraft_id, group, name) {
            (Option::Some(i), Option::Some(g), Option::Some(n)) => (i, g, n),
            _ => {
                return Err(DocumentError::ChecklistMalformed);
            },
        };
        let ghost raw_seq = raw_steps@;
        let mut steps: Vec<Step> = Vec::new();
        let mut i: usize = 0;
        while i < raw_steps.len()
            invariant
                i <= raw_steps.len(),
                raw_steps@ == raw_seq,
                steps@ == raw_seq.take(i as int).map_values(|s: RawStep| classify_spec(s)),
            decreases raw_steps.len() - i,
        {
            steps.push(classify(&raw_steps[i]));
            proof {
                assert(raw_seq.take(i + 1).map_values(|s: RawStep| classify_spec(s))
                    =~= raw_seq.take(i as int).map_values(|s: RawStep| classify_spec(s)).push(
                    classify_spec(raw_seq[i as int]),
                ));
            }
            i = i + 1;
        }
        proof {
            assert(raw_seq.take(raw_steps@.len() as int) =~= raw_seq);
        }
        Ok(ChecklistDocument { spacecraft_id, group, name, steps })
    }
}

/// Structural equality of two classified steps: the same variant with the
/// same payload, text compared by content.
pub open spec fn step_like(a: Step, b: Step) -> bool {
    match (a, b) {
        (Step::Display { text: t1 }, Step::Display { text: t2 }) => t1@ == t2@,
        (Step::DisplayOnly { text: t1 }, Step::DisplayOnly { text: t2 }) => t1@ == t2@,
        (
            Step::SetSwitch { description: d1, set_id: s1, to_pos_id: p1 },
            Step::SetSwitch { description: d2, set_id: s2, to_pos_id: p2 },
        ) => d1@ == d2@ && s1 == s2 && p1 == p2,
        (
            Step::SetCircuitBreaker { description: d1, set_id: s1, to_pos_id: p1 },
            Step::SetCircuitBreaker { description: d2, set_id: s2, to_pos_id: p2 },
        ) => d1@ == d2@ && s1 == s2 && p1 == p2,
        (
            Step::SetSelector { description: d1, set_id: s1, to_pos_id: p1 },
            Step::SetSelector { description: d2, set_id: s2, to_pos_id: p2 },
        ) => d1@ == d2@ && s1 == s2 && p1 == p2,
        (
            Step::SetHandle { description: d1, set_id: s1, to_pos_id: p1 },
            Step::SetHandle { description: d2, set_id: s2, to_pos_id: p2 },
        ) => d1@ == d2@ && s1 == s2 && p1 == p2,
        (Step::Malformed, Step::Malformed) => true,
        (Step::Unsupported { kind: k1 }, Step::Unsupported { kind: k2 }) => k1 == k2,
        _ => false,
    }
}

/// Decides [`step_like`] on two classified steps.
pub fn step_eq(a: &Step, b: &Step) -> (r: bool)
    ensures
        r == step_like(*a, *b),
{
    match (a, b) {
        (Step::Display { text: t1 }, Step::Display { text: t2 }) => *t1 == *t2,
        (Step::DisplayOnly { text: t1 }, Step::DisplayOnly { text: t2 }) => *t1 == *t2,
        (
            Step::SetSwitch { description: d1, set_id: s1, to_pos_id: p1 },
            Step::SetSwitch { description: d2, set_id: s2, to_pos_id: p2 },
        ) => *d1 == *d2 && s1 == s2 && p1 == p2,
        (
            Step::SetCircuitBreaker { description: d1, set_id: s1, to_pos_id: p1 },
            Step::SetCircuitBreaker { description: d2, set_id: s2, to_pos_id: p2 },
        ) => *d1 == *d2 && s1 == s2 && p1 == p2,
        (
            Step::SetSelector { description: d1, set_id: s1, to_pos_id: p1 },
            Step::SetSelector { description: d2, set_id: s2, to_pos_id: p2 },
        ) => *d1 == *d2 && s1 == s2 && p1 == p2,
        (
            Step::SetHandle { description: d1, set_id: s1, to_pos_id: p1 },
            Step::SetHandle { description: d2, set_id: s2, to_pos_id: p2 },
        ) => *d1 == *d2 && s1 == s2 && p1 == p2,
        (Step::Malformed, Step::Malformed) => true,
        (Step::Unsupported { kind: k1 }, Step::Unsupported { kind: k2 }) => k1 == k2,
        _ => false,
    }
}

/// Structural equality of two typed documents: equal headers and pointwise
/// equal steps.
pub open spec fn doc_like(a: ChecklistDocument, b: ChecklistDocument) -> bool {
    &&& a.spacecraft_id == b.spacecraft_id
    &&& a.group@ == b.group@
    &&& a.name@ == b.name@
    &&& a.steps@.len() == b.steps@.len()
    &&& forall|i: int| 0 <= i < a.steps@.len() ==> step_like(a.steps@[i], b.steps@[i])
}

/// Decides [`doc_like`] on two typed documents.
pub fn doc_eq(a: &ChecklistDocument, b: &ChecklistDocument) -> (r: bool)
    ensures
        r == doc_like(*a, *b),
{
    if a.spacecraft_id != b.spacecraft_id {
        return false;
    }
    if !(a.group == b.group) {
        return false;
    }
    if !(a.name == b.name) {
        return false;
    }
    if a.steps.len() != b.steps.len() {
        return false;
    }
    let mut i: usize = 0;
    while i < a.steps.len()
        invariant
            i <= a.steps.len(),
            a.steps@.len() == b.steps@.len(),
            forall|j: int| 0 <= j < i ==> step_like(a.steps@[j], b.steps@[j]),
        decreases a.steps.len() - i,
    {
        if !step_eq(&a.steps[i], &b.steps[i]) {
            return false;
        }
        i = i + 1;
    }
    true
}

/// Content equality of two optional strings: both absent, or both present
/// with the same characters.
pub open spec fn opt_text_like(a: Option<String>, b: Option<String>) -> bool {
    match (a, b) {
        (Option::Some(x), Option::Some(y)) => x@ == y@,
        (Option::None, Option::None) => true,
        _ => false,
    }
}

/// Content equality of two raw steps: the same fields present, with the
/// same values — exactly what two parses of the same stored bytes give.
pub open spec fn raw_step_like(a: RawStep, b: RawStep) -> bool {
    &&& a.kind == b.kind
    &&& opt_text_like(a.text, b.text)
    &&& opt_text_like(a.description, b.description)
    &&& a.set_id == b.set_id
    &&& a.to_pos_id == b.to_pos_id
}

/// Classification depends only on a raw step's content: raw steps with the
/// same content classify to structurally equal steps.
pub proof fn lemma_classify_respects_content(a: RawStep, b: RawStep)
    requires
        raw_step_like(a, b),
    ensures
        step_like(classify_spec(a), classify_spec(b)),
{
}

/// Content equality of two raw checklists, as two parses of the same
/// stored bytes give.
pub open spec fn raw_document_like(a: RawDocument, b: RawDocument) -> bool {
    &&& a.spacecraft_id == b.spacecraft_id
    &&& opt_text_like(a.group, b.group)
    &&& opt_text_like(a.name, b.name)
    &&& a.steps@.len() == b.steps@.len()
    &&& forall|i: int| 0 <= i < a.steps@.len() ==> raw_step_like(a.steps@[i], b.steps@[i])
}

/// Loading is idempotent: two raw records of the same content — as loading
/// the same stored bytes twice gives — build structurally equal documents.
/// `d1` and `d2` are any results [`ChecklistDocument::from_raw`]'s contract
/// allows for `raw1` and `raw2`.
pub proof fn lemma_load_idempotent(
    raw1: RawDocument,
    raw2: RawDocument,
    d1: ChecklistDocument,
    d2: ChecklistDocument,
)
    requires
        raw_document_like(raw1, raw2),
        header_ok(raw1),
        d1.spacecraft_id == raw1.spacecraft_id.unwrap(),
        d1.group == raw1.group.unwrap(),
        d1.name == raw1.name.unwrap(),
        d1.steps@ == raw1.steps@.map_values(|s: RawStep| classify_spec(s)),
        d2.spacecraft_id == raw2.spacecraft_id.unwrap(),
        d2.group == raw2.group.unwrap(),
        d2.name == raw2.name.unwrap(),
        d2.steps@ == raw2.steps@.map_values(|s: RawStep| classify_spec(s)),
    ensures
        doc_like(d1, d2),
{
    assert forall|i: int| 0 <= i < d1.steps@.len() implies step_like(
        d1.steps@[i],
        d2.steps@[i],
    ) by {
        assert(d1.steps@[i] == classify_spec(raw1.steps@[i]));
        assert(d2.steps@[i] == classify_spec(raw2.steps@[i]));
        assert(raw_step_like(raw1.steps@[i], raw2.steps@[i]));
        lemma_classify_respects_content(raw1.steps@[i], raw2.steps@[i]);
    }
}

} // verus!
