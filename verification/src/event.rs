//! The typed event model: an immutable record classified along five
//! independent axes (primary type, detail type, sub type, platform,
//! implementation), carrying the per-axis payload the core reads.

use vstd::prelude::*;
use vstd::seq_lib::*;

verus! {

/// A resolved self-identity: which backend account an event belongs to.
pub struct Selft {
    pub platform: String,
    pub user_id: String,
}

/// Mathematical model of a [`Selft`].
#[verifier::ext_equal]
pub ghost struct SelftV {
    pub platform: Seq<char>,
    pub user_id: Seq<char>,
}

impl View for Selft {
    type V = SelftV;

    open spec fn view(&self) -> SelftV {
        SelftV { platform: self.platform@, user_id: self.user_id@ }
    }
}

impl Clone for Selft {
    fn clone(&self) -> (r: Self)
        ensures
            r@ == self@,
    {
        Selft { platform: self.platform.clone(), user_id: self.user_id.clone() }
    }
}

/// One piece of structured message content.
pub enum Segment {
    /// Plain text.
    Text { text: String },
    /// A mention of one user.
    Mention { user_id: String },
    /// Any other segment kind, kept opaque except for its textual summary.
    Other { ty: String, alt: String },
}

/// Mathematical model of a [`Segment`].
#[verifier::ext_equal]
pub ghost enum SegmentV {
    Text { text: Seq<char> },
    Mention { user_id: Seq<char> },
    Other { ty: Seq<char>, alt: Seq<char> },
}

impl View for Segment {
    type V = SegmentV;

    open spec fn view(&self) -> SegmentV {
        match self {
            Segment::Text { text } => SegmentV::Text { text: text@ },
            Segment::Mention { user_id } => SegmentV::Mention { user_id: user_id@ },
            Segment::Other { ty, alt } => SegmentV::Other { ty: ty@, alt: alt@ },
        }
    }
}

impl Clone for Segment {
    fn clone(&self) -> (r: Self)
        ensures
            r@ == self@,
    {
        match self {
            Segment::Text { text } => Segment::Text { text: text.clone() },
            Segment::Mention { user_id } => Segment::Mention { user_id: user_id.clone() },
            Segment::Other { ty, alt } => Segment::Other { ty: ty.clone(), alt: alt.clone() },
        }
    }
}

/// The sequence of models of a sequence of segments.
pub open spec fn segs_view(s: Seq<Segment>) -> Seq<SegmentV> {
    s.map_values(|seg: Segment| seg@)
}

impl SegmentV {
    /// The one-line textual summary of a segment.
    pub open spec fn alt(self) -> Seq<char> {
        match self {
            SegmentV::Text { text } => text,
            SegmentV::Mention { user_id } => seq!['@'] + user_id,
            SegmentV::Other { ty: _, alt } => alt,
        }
    }
}

/// The flattened textual summary of a whole message: the summaries of its
/// segments, concatenated in order.
pub open spec fn alt_concat(segs: Seq<SegmentV>) -> Seq<char>
    decreases segs.len(),
{
    if segs.len() == 0 {
        Seq::empty()
    } else {
        alt_concat(segs.drop_last()) + segs.last().alt()
    }
}

impl Segment {
    /// Compute the textual summary of this segment.
    pub fn alt(&self) -> (r: String)
        ensures
            r@ == self@.alt(),
    {
        match self {
            Segment::Text { text } => text.clone(),
            Segment::Mention { user_id } => {
                proof {
                    reveal_strlit("@");
                }
                let r = String::from_str("@").concat(user_id.as_str());
                assert(r@ =~= self@.alt());
                r
            },
            Segment::Other { ty: _, alt } => alt.clone(),
        }
    }
}

/// Clone a message segment by segment.
pub fn clone_segments(v: &Vec<Segment>) -> (r: Vec<Segment>)
    ensures
        segs_view(r@) == segs_view(v@),
{
    let mut r: Vec<Segment> = Vec::new();
    let mut i: usize = 0;
    while i < v.len()
        invariant
            i <= v.len(),
            r@.len() == i,
            forall|j: int| 0 <= j < i ==> r@[j]@ == v@[j]@,
        decreases v.len() - i,
    {
        r.push(v[i].clone());
        i = i + 1;
    }
    proof {
        assert(segs_view(r@) =~= segs_view(v@));
    }
    r
}

/// Payload of a message-typed event.
pub struct MessageBody {
    pub message_id: String,
    pub message: Vec<Segment>,
    pub alt_message: String,
    pub user_id: String,
}

/// Mathematical model of a [`MessageBody`].
#[verifier::ext_equal]
pub ghost struct MessageBodyV {
    pub message_id: Seq<char>,
    pub message: Seq<SegmentV>,
    pub alt_message: Seq<char>,
    pub user_id: Seq<char>,
}

impl View for MessageBody {
    type V = MessageBodyV;

    open spec fn view(&self) -> MessageBodyV {
        MessageBodyV {
            message_id: self.message_id@,
            message: segs_view(self.message@),
            alt_message: self.alt_message@,
            user_id: self.user_id@,
        }
    }
}

impl Clone for MessageBody {
    fn clone(&self) -> (r: Self)
        ensures
            r@ == self@,
    {
        let r = MessageBody {
            message_id: self.message_id.clone(),
            message: clone_segments(&self.message),
            alt_message: self.alt_message.clone(),
            user_id: self.user_id.clone(),
        };
        assert(r@ =~= self@);
        r
    }
}

/// The primary classification axis, with its payload.
pub enum EventTy {
    Message { body: MessageBody },
    Notice,
    Request,
    Meta,
}

/// Mathematical model of an [`EventTy`].
#[verifier::ext_equal]
pub ghost enum EventTyV {
    Message { body: MessageBodyV },
    Notice,
    Request,
    Meta,
}

impl View for EventTy {
    type V = EventTyV;

    open spec fn view(&self) -> EventTyV {
        match self {
            EventTy::Message { body } => EventTyV::Message { body: body@ },
            EventTy::Notice => EventTyV::Notice,
            EventTy::Request => EventTyV::Request,
            EventTy::Meta => EventTyV::Meta,
        }
    }
}

impl Clone for EventTy {
    fn clone(&self) -> (r: Self)
        ensures
            r@ == self@,
    {
        match self {
            EventTy::Message { body } => EventTy::Message { body: body.clone() },
            EventTy::Notice => EventTy::Notice,
            EventTy::Request => EventTy::Request,
            EventTy::Meta => EventTy::Meta,
        }
    }
}

/// The detail classification axis, with its payload.
pub enum DetailTy {
    /// A one-to-one conversation.
    Private,
    /// A group conversation; always carries the group identifier.
    Group { group_id: String },
    /// Any other detail kind.
    Other { name: String },
}

/// Mathematical model of a [`DetailTy`].
#[verifier::ext_equal]
pub ghost enum DetailTyV {
    Private,
    Group { group_id: Seq<char> },
    Other { name: Seq<char> },
}

impl View for DetailTy {
    type V = DetailTyV;

    open spec fn view(&self) -> DetailTyV {
        match self {
            DetailTy::Private => DetailTyV::Private,
            DetailTy::Group { group_id } => DetailTyV::Group { group_id: group_id@ },
            DetailTy::Other { name } => DetailTyV::Other { name: name@ },
        }
    }
}

impl Clone for DetailTy {
    fn clone(&self) -> (r: Self)
        ensures
            r@ == self@,
    {
        match self {
            DetailTy::Private => DetailTy::Private,
            DetailTy::Group { group_id } => DetailTy::Group { group_id: group_id.clone() },
            DetailTy::Other { name } => DetailTy::Other { name: name.clone() },
        }
    }
}

/// A fully decoded inbound event.
pub struct Event {
    /// Stable unique identifier, also used as correlation key by the
    /// ask/await primitive.
    pub id: String,
    /// Timestamp in the event source's time units.
    pub time: u64,
    /// Primary classification and payload.
    pub ty: EventTy,
    /// Detail classification and payload.
    pub detail: DetailTy,
    /// Sub-type classification axis.
    pub sub_type: String,
    /// Platform classification axis.
    pub platform: String,
    /// The self-identity that owns the event.
    pub selft: Selft,
}

/// Mathematical model of an [`Event`].
#[verifier::ext_equal]
pub ghost struct EventV {
    pub id: Seq<char>,
    pub time: u64,
    pub ty: EventTyV,
    pub detail: DetailTyV,
    pub sub_type: Seq<char>,
    pub platform: Seq<char>,
    pub selft: SelftV,
}

impl View for Event {
    type V = EventV;

    open spec fn view(&self) -> EventV {
        EventV {
            id: self.id@,
            time: self.time,
            ty: self.ty@,
            detail: self.detail@,
            sub_type: self.sub_type@,
            platform: self.platform@,
            selft: self.selft@,
        }
    }
}

impl Clone for Event {
    fn clone(&self) -> (r: Self)
        ensures
            r@ == self@,
    {
        let r = Event {
            id: self.id.clone(),
            time: self.time,
            ty: self.ty.clone(),
            detail: self.detail.clone(),
            sub_type: self.sub_type.clone(),
            platform: self.platform.clone(),
            selft: self.selft.clone(),
        };
        assert(r@ =~= self@);
        r
    }
}

impl EventV {
    /// Whether the event is message-typed.
    pub open spec fn is_message(self) -> bool {
        self.ty is Message
    }

    /// The message payload of a message-typed event.
    pub open spec fn msg(self) -> MessageBodyV
        recommends
            self.is_message(),
    {
        self.ty->body
    }

    /// The group identifier, for group-detail events.
    pub open spec fn group_id(self) -> Option<Seq<char>> {
        match self.detail {
            DetailTyV::Group { group_id } => Some(group_id),
            _ => None,
        }
    }
}

} // verus!
