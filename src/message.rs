use vstd::prelude::*;

verus! {

/// One field of an error value: its name (for a positional field,
/// `unnamed0`, `unnamed1`, ...), its display text and its debug text.
pub struct FieldValue {
    pub name: String,
    pub display: String,
    pub debug: String,
}

/// A piece of a computed message: literal text, or the display text of the
/// field at a position.
pub enum Segment {
    Text(String),
    Field(usize),
}

/// The message configured for a record, a case, or a whole set of cases.
pub enum Message {
    /// A fixed string, the same for every field value.
    Fixed(String),
    /// A template evaluated over the field values.
    Computed(Vec<Segment>),
}

/// What one segment contributes to a rendered message.
pub open spec fn segment_text(seg: Segment, fields: Seq<FieldValue>) -> Seq<char> {
    match seg {
        Segment::Text(t) => t@,
        Segment::Field(i) => fields[i as int].display@,
    }
}

/// The concatenation of what each segment contributes, in order.
pub open spec fn segments_text(segs: Seq<Segment>, fields: Seq<FieldValue>) -> Seq<char>
    decreases segs.len(),
{
    if segs.len() == 0 {
        Seq::empty()
    } else {
        segments_text(segs.drop_last(), fields) + segment_text(segs.last(), fields)
    }
}

/// Every field position that the segments name is below `n`.
pub open spec fn segments_within(segs: Seq<Segment>, n: nat) -> bool {
    forall|k: int|
        0 <= k < segs.len() ==> match #[trigger] segs[k] {
            Segment::Text(_) => true,
            Segment::Field(i) => i < n,
        }
}

impl Message {
    /// The message names no field at or past position `n`.
    pub open spec fn within(&self, n: nat) -> bool {
        match self {
            Message::Fixed(_) => true,
            Message::Computed(segs) => segments_within(segs@, n),
        }
    }

    /// The text that the message renders to over `fields`.
    pub open spec fn text(&self, fields: Seq<FieldValue>) -> Seq<char> {
        match self {
            Message::Fixed(s) => s@,
            Message::Computed(segs) => segments_text(segs@, fields),
        }
    }

    /// Whether the message names only fields below position `n`.
    pub fn refs_within(&self, n: usize) -> (r: bool)
        ensures
            r == self.within(n as nat),
    {
        match self {
            Message::Fixed(_) => true,
            Message::Computed(segs) => {
                let mut k: usize = 0;
                while k < segs.len()
                    invariant
                        k <= segs@.len(),
                        self.within(n as nat) == segments_within(segs@, n as nat),
                        segments_within(segs@.subrange(0, k as int), n as nat),
                    decreases segs@.len() - k,
                {
                    match &segs[k] {
                        Segment::Text(_) => {},
                        Segment::Field(i) => {
                            if *i >= n {
                                assert(segs@[k as int] == Segment::Field(*i));
                                assert(!segments_within(segs@, n as nat));
                                return false;
                            }
                        },
                    }
                    assert(segments_within(segs@.subrange(0, k + 1), n as nat)) by {
                        assert forall|j: int| 0 <= j < k + 1 implies match #[trigger] segs@.subrange(0, k + 1)[j] {
                            Segment::Text(_) => true,
                            Segment::Field(i) => i < n,
                        } by {
                            if j < k {
                                assert(segs@.subrange(0, k + 1)[j] == segs@.subrange(0, k as int)[j]);
                            }
                        };
                    };
                    k = k + 1;
                }
                assert(segs@.subrange(0, segs@.len() as int) =~= segs@);
                true
            },
        }
    }

    /// Renders the message over the field values.
    pub fn render(&self, fields: &Vec<FieldValue>) -> (r: String)
        requires
            self.within(fields@.len()),
        ensures
            r@ == self.text(fields@),
    {
        match self {
            Message::Fixed(s) => s.clone(),
            Message::Computed(segs) => {
                let mut out = String::new();
                let mut k: usize = 0;
                while k < segs.len()
                    invariant
                        k <= segs@.len(),
                        self.text(fields@) == segments_text(segs@, fields@),
                        segments_within(segs@, fields@.len()),
                        out@ == segments_text(segs@.subrange(0, k as int), fields@),
                    decreases segs@.len() - k,
                {
                    match &segs[k] {
                        Segment::Text(t) => out.append(t.as_str()),
                        Segment::Field(i) => {
                            assert(segs@[k as int] is Field);
                            out.append(fields[*i].display.as_str());
                        },
                    }
                    assert(segs@.subrange(0, k + 1).drop_last() =~= segs@.subrange(0, k as int));
                    k = k + 1;
                }
                assert(segs@.subrange(0, segs@.len() as int) =~= segs@);
                out
            },
        }
    }
}

} // verus!
