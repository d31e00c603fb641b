//! The narrowing requirement of a matcher: what it demands of an event on
//! each of the five classification axes, and the fallible narrowing
//! conversion itself.

use vstd::prelude::*;

use crate::event::{DetailTy, DetailTyV, Event, EventTy, EventTyV, EventV};

verus! {

/// Requirement on the primary type axis.
pub enum TyShape {
    AnyTy,
    MessageTy,
    NoticeTy,
    RequestTy,
    MetaTy,
}

/// Requirement on the detail type axis.
pub enum DetailShape {
    AnyDetail,
    /// Only one-to-one conversations.
    PrivateDetail,
    /// Only group conversations.
    GroupDetail,
    /// Either a private or a group conversation.
    MessageDetail,
}

/// Requirement on the sub type axis.
pub enum SubShape {
    AnySub,
    ExactSub { sub_type: String },
}

/// Requirement on the platform axis.
pub enum PlatformShape {
    AnyPlatform,
    ExactPlatform { platform: String },
}

/// Requirement on the implementation axis.
pub enum ImplShape {
    AnyImpl,
    ExactImpl { implt: String },
}

impl TyShape {
    /// What this axis requirement accepts.
    pub open spec fn spec_matches(self, ty: EventTyV) -> bool {
        match self {
            TyShape::AnyTy => true,
            TyShape::MessageTy => ty is Message,
            TyShape::NoticeTy => ty is Notice,
            TyShape::RequestTy => ty is Request,
            TyShape::MetaTy => ty is Meta,
        }
    }

    /// Narrow one event along the primary type axis.
    pub fn matches(&self, ty: &EventTy) -> (r: bool)
        ensures
            r == self.spec_matches(ty@),
    {
        match (self, ty) {
            (TyShape::AnyTy, _) => true,
            (TyShape::MessageTy, EventTy::Message { .. }) => true,
            (TyShape::NoticeTy, EventTy::Notice) => true,
            (TyShape::RequestTy, EventTy::Request) => true,
            (TyShape::MetaTy, EventTy::Meta) => true,
            _ => false,
        }
    }
}

impl DetailShape {
    /// What this axis requirement accepts.
    pub open spec fn spec_matches(self, detail: DetailTyV) -> bool {
        match self {
            DetailShape::AnyDetail => true,
            DetailShape::PrivateDetail => detail is Private,
            DetailShape::GroupDetail => detail is Group,
            DetailShape::MessageDetail => detail is Private || detail is Group,
        }
    }

    /// Narrow one event along the detail type axis.
    pub fn matches(&self, detail: &DetailTy) -> (r: bool)
        ensures
            r == self.spec_matches(detail@),
    {
        match (self, detail) {
            (DetailShape::AnyDetail, _) => true,
            (DetailShape::PrivateDetail, DetailTy::Private) => true,
            (DetailShape::GroupDetail, DetailTy::Group { .. }) => true,
            (DetailShape::MessageDetail, DetailTy::Private) => true,
            (DetailShape::MessageDetail, DetailTy::Group { .. }) => true,
            _ => false,
        }
    }
}

impl SubShape {
    /// What this axis requirement accepts.
    pub open spec fn spec_matches(self, sub_type: Seq<char>) -> bool {
        match self {
            SubShape::AnySub => true,
            SubShape::ExactSub { sub_type: want } => want@ == sub_type,
        }
    }

    /// Narrow one event along the sub type axis.
    pub fn matches(&self, sub_type: &String) -> (r: bool)
        ensures
            r == self.spec_matches(sub_type@),
    {
        match self {
            SubShape::AnySub => true,
            SubShape::ExactSub { sub_type: want } => *want == *sub_type,
        }
    }
}

impl PlatformShape {
    /// What this axis requirement accepts.
    pub open spec fn spec_matches(self, platform: Seq<char>) -> bool {
        match self {
            PlatformShape::AnyPlatform => true,
            PlatformShape::ExactPlatform { platform: want } => want@ == platform,
        }
    }

    /// Narrow one event along the platform axis.
    pub fn matches(&self, platform: &String) -> (r: bool)
        ensures
            r == self.spec_matches(platform@),
    {
        match self {
            PlatformShape::AnyPlatform => true,
            PlatformShape::ExactPlatform { platform: want } => *want == *platform,
        }
    }
}

impl ImplShape {
    /// What this axis requirement accepts.
    pub open spec fn spec_matches(self, implt: Seq<char>) -> bool {
        match self {
            ImplShape::AnyImpl => true,
            ImplShape::ExactImpl { implt: want } => want@ == implt,
        }
    }

    /// Narrow one event along the implementation axis.
    ///
    /// The implementation name is not part of the event itself: the
    /// dispatcher resolves it once per event through the action caller.
    pub fn matches(&self, implt: &String) -> (r: bool)
        ensures
            r == self.spec_matches(implt@),
    {
        match self {
            ImplShape::AnyImpl => true,
            ImplShape::ExactImpl { implt: want } => *want == *implt,
        }
    }
}

/// A matcher's full narrowing requirement: one requirement per axis, all of
/// which must accept the event for the narrowing to succeed.
pub struct Shape {
    pub ty: TyShape,
    pub detail: DetailShape,
    pub sub: SubShape,
    pub platform: PlatformShape,
    pub implt: ImplShape,
}

impl Shape {
    /// A shape with no requirement on any axis.
    pub fn any() -> (r: Shape)
        ensures
            forall|e: EventV, im: Seq<char>| r.spec_matches(e, im),
    {
        Shape {
            ty: TyShape::AnyTy,
            detail: DetailShape::AnyDetail,
            sub: SubShape::AnySub,
            platform: PlatformShape::AnyPlatform,
            implt: ImplShape::AnyImpl,
        }
    }

    /// Whether the whole five-axis narrowing of `e` succeeds.
    pub open spec fn spec_matches(self, e: EventV, implt: Seq<char>) -> bool {
        &&& self.ty.spec_matches(e.ty)
        &&& self.detail.spec_matches(e.detail)
        &&& self.sub.spec_matches(e.sub_type)
        &&& self.platform.spec_matches(e.platform)
        &&& self.implt.spec_matches(implt)
    }

    /// Attempt the five-axis narrowing; the first axis to fail aborts the
    /// whole attempt.
    pub fn matches(&self, event: &Event, implt: &String) -> (r: bool)
        ensures
            r == self.spec_matches(event@, implt@),
    {
        self.ty.matches(&event.ty) && self.detail.matches(&event.detail)
            && self.sub.matches(&event.sub_type) && self.platform.matches(&event.platform)
            && self.implt.matches(implt)
    }

    /// Narrow a generic event against this shape.
    ///
    /// Either the narrowing fully succeeds and yields the event for a new
    /// session, or the whole conversion is rejected; no partially narrowed
    /// event is ever produced.
    pub fn narrow(&self, event: &Event, implt: &String) -> (r: Option<Event>)
        ensures
            r is Some <==> self.spec_matches(event@, implt@),
            r matches Some(e) ==> e@ == event@,
    {
        if self.matches(event, implt) {
            Some(event.clone())
        } else {
            None
        }
    }
}

} // verus!
