use vstd::prelude::*;

use crate::descriptor::{generic_text, ErrorDescriptor, Kind, MessageSource, VariantSet};
use crate::message::{segments_text, segments_within, FieldValue, Message, Segment};
use crate::value::debug_text;

verus! {

/// The two field lists have the same length and the same display text at
/// each position.
pub open spec fn same_displays(a: Seq<FieldValue>, b: Seq<FieldValue>) -> bool {
    &&& a.len() == b.len()
    &&& forall|i: int| 0 <= i < a.len() ==> #[trigger] a[i].display@ == b[i].display@
}

/// A descriptor whose message is a fixed string renders to exactly that
/// string, whatever its field values are.
pub proof fn lemma_fixed_message_exact(d: ErrorDescriptor, s: String)
    requires
        d.wf(),
        d.message() == Some(Message::Fixed(s)),
    ensures
        d.text() == s@,
{
}

proof fn lemma_segments_same_displays(
    segs: Seq<Segment>,
    a: Seq<FieldValue>,
    b: Seq<FieldValue>,
)
    requires
        segments_within(segs, a.len()),
        same_displays(a, b),
    ensures
        segments_text(segs, a) == segments_text(segs, b),
    decreases segs.len(),
{
    if segs.len() > 0 {
        let init = segs.drop_last();
        assert(segments_within(init, a.len())) by {
            assert forall|k: int| 0 <= k < init.len() implies match #[trigger] init[k] {
                Segment::Text(_) => true,
                Segment::Field(i) => i < a.len(),
            } by {
                assert(init[k] == segs[k]);
            };
        };
        lemma_segments_same_displays(init, a, b);
        assert(segs[segs.len() - 1] == segs.last());
    }
}

/// A computed message renders deterministically: two descriptors of the same
/// kind whose fields hold the same display texts render to the same text.
/// In particular, rendering one descriptor twice gives the same text.
pub proof fn lemma_computed_message_deterministic(a: ErrorDescriptor, b: ErrorDescriptor)
    requires
        a.wf(),
        b.wf(),
        a.kind == b.kind,
        a.message() matches Some(Message::Computed(_)),
        same_displays(a.fields@, b.fields@),
    ensures
        a.text() == b.text(),
{
    match a.message() {
        Some(Message::Computed(segs)) => {
            lemma_segments_same_displays(segs@, a.fields@, b.fields@);
        },
        _ => {},
    }
}

/// A case without a message of its own renders with the message that its
/// set shares, if the set has one; otherwise with the generic message, which
/// holds the set's name in brackets followed by the value's debug text.
pub proof fn lemma_case_fallback(d: ErrorDescriptor)
    requires
        d.wf(),
        d.kind matches Kind::Variant { set, active } && set.cases@[active as int].message is None,
    ensures
        match d.kind {
            Kind::Variant { set, active } => {
                let case = set.cases@[active as int];
                let dbg = debug_text(case.name@, case.shape, d.fields@);
                &&& set.default matches Some(m) ==> d.text() == m.text(d.fields@)
                &&& set.default is None ==> d.text() == generic_text(set.name@, dbg)
                &&& set.default is None ==> d.text().subrange(1, 1 + set.name@.len() as int) == set.name@
                &&& set.default is None ==> d.text().subrange(
                    d.text().len() - dbg.len(),
                    d.text().len() as int,
                ) == dbg
            },
            _ => true,
        },
{
    match d.kind {
        Kind::Variant { set, active } => {
            let case = set.cases@[active as int];
            let dbg = debug_text(case.name@, case.shape, d.fields@);
            if set.default is None {
                let t = generic_text(set.name@, dbg);
                reveal_strlit("[");
                reveal_strlit("] An error occured; ");
                assert(t.subrange(1, 1 + set.name@.len() as int) =~= set.name@);
                assert(t.subrange(t.len() - dbg.len(), t.len() as int) =~= dbg);
            }
        },
        _ => {},
    }
}

/// In a variant set, every case renders: one with a message of its own
/// renders with it, and each of the others renders with the set's shared
/// message if there is one, else with the generic message.
pub proof fn lemma_every_case_renders(set: VariantSet)
    ensures
        forall|k: int, fields: Seq<FieldValue>|
            0 <= k < set.cases@.len() ==> #[trigger] set.case_text(k, fields) == match set.source(k) {
                MessageSource::Dedicated => set.cases@[k].message->Some_0.text(fields),
                MessageSource::SetDefault => set.default->Some_0.text(fields),
                MessageSource::Generic => generic_text(
                    set.name@,
                    debug_text(set.cases@[k].name@, set.cases@[k].shape, fields),
                ),
            },
{
}

} // verus!
